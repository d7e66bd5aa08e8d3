//! Tests for the navigation controller.

use ev_kiosk::router::{AppState, Router, UiEvent, COMPLETE_DURATION_MS};
use ev_kiosk::screen::payment_screen::PaymentMethod;
use ev_kiosk::screen::select_amount_screen::ChargeType;

#[test]
fn new_router_starts_at_splash() {
    let r = Router::new();
    assert_eq!(r.state, AppState::Splash);
    assert_eq!(r.navigation_stack.len(), 1);
    assert_eq!(r.navigation_stack[0], AppState::Splash);
    assert!(r.is_splash());
    assert!(!r.is_standby());
    assert!(!r.is_full_charge());
    assert!(!r.can_go_back());
}

// Scenario: three pushes from the splash screen grow the stack to four
// entries, and two pops return to the connect screen.
#[test]
fn scenario_three_pushes_two_pops() {
    let mut r = Router::new();
    r.push_screen(AppState::Connect(ChargeType::SpecificWatts(0)));
    r.push_screen(AppState::Standby);
    r.push_screen(AppState::SelectAmount(ChargeType::SpecificWatts(0)));
    assert_eq!(r.navigation_stack.len(), 4);
    assert_eq!(r.state, AppState::SelectAmount(ChargeType::SpecificWatts(0)));
    let first = r.pop_screen();
    assert_eq!(first, Some(AppState::Standby));
    let second = r.pop_screen();
    assert_eq!(second, Some(AppState::Connect(ChargeType::SpecificWatts(0))));
    assert_eq!(r.state, AppState::Connect(ChargeType::SpecificWatts(0)));
}

// A push followed immediately by a pop restores the previous state and
// stack length exactly.
#[test]
fn push_then_pop_restores_exactly() {
    let mut r = Router::new();
    r.push_screen(AppState::Standby);
    let state_before = r.state;
    let stack_before = r.navigation_stack.clone();
    r.push_screen(AppState::FullCharge);
    let popped = r.pop_screen();
    assert_eq!(popped, Some(state_before));
    assert_eq!(r.state, state_before);
    assert_eq!(r.navigation_stack, stack_before);
}

// A pop on a single-entry stack is a no-op and signals it with None.
#[test]
fn pop_at_root_is_noop_with_signal() {
    let mut r = Router::new();
    let popped = r.pop_screen();
    assert_eq!(popped, None);
    assert_eq!(r.state, AppState::Splash);
    assert_eq!(r.navigation_stack.len(), 1);
}

#[test]
fn duplicate_push_is_noop() {
    let mut r = Router::new();
    r.push_screen(AppState::Standby);
    let len_before = r.navigation_stack.len();
    r.push_screen(AppState::Standby);
    assert_eq!(r.navigation_stack.len(), len_before);
    assert_eq!(r.state, AppState::Standby);
}

#[test]
fn full_session_flow_through_events() {
    let mut r = Router::new();
    r.handle_event(UiEvent::SplashFinished);
    assert_eq!(r.state, AppState::Connect(ChargeType::SpecificWatts(0)));
    r.handle_event(UiEvent::ConnectionCompleted);
    assert_eq!(r.state, AppState::Standby);
    r.handle_event(UiEvent::SpecificWattsSelected);
    assert_eq!(r.state, AppState::SelectAmount(ChargeType::SpecificWatts(0)));
    r.handle_event(UiEvent::AmountConfirmed(50));
    assert_eq!(r.state, AppState::Payment(ChargeType::SpecificWatts(0), 50));
    // proceeding without a chosen payment method is rejected
    r.handle_event(UiEvent::PaymentConfirmed(None));
    assert_eq!(r.state, AppState::Payment(ChargeType::SpecificWatts(0), 50));
    r.handle_event(UiEvent::PaymentConfirmed(Some(PaymentMethod::CreditCard)));
    assert_eq!(
        r.state,
        AppState::Charging(ChargeType::SpecificWatts(0), 50, PaymentMethod::CreditCard)
    );
    r.handle_event(UiEvent::ChargingFinished);
    assert_eq!(
        r.state,
        AppState::Complete(
            ChargeType::SpecificWatts(0),
            50,
            PaymentMethod::CreditCard,
            0,
            COMPLETE_DURATION_MS
        )
    );
    r.handle_event(UiEvent::ReturnHome);
    assert_eq!(r.state, AppState::Standby);
    assert_eq!(r.navigation_stack.len(), 1);
    assert_eq!(r.navigation_stack[0], AppState::Standby);
}

#[test]
fn charging_finished_quotes_cost_from_charge_type() {
    let mut r = Router::new();
    r.go_to_charging(ChargeType::SpecificWatts(50), 50, PaymentMethod::RFID);
    r.handle_event(UiEvent::ChargingFinished);
    // 50 kW quoted at 0.2 units per kW: 10 units = 100 tenths
    assert_eq!(
        r.state,
        AppState::Complete(
            ChargeType::SpecificWatts(50),
            50,
            PaymentMethod::RFID,
            100,
            COMPLETE_DURATION_MS
        )
    );
}

#[test]
fn percent_selection_and_full_charge_paths() {
    let mut r = Router::new();
    r.go_to_standby();
    r.handle_event(UiEvent::PercentSelected);
    assert_eq!(r.state, AppState::SelectAmount(ChargeType::Percent(0)));
    r.handle_event(UiEvent::BackRequested);
    assert_eq!(r.state, AppState::Standby);

    r.handle_event(UiEvent::FullChargeSelected);
    assert_eq!(r.state, AppState::FullCharge);
    r.handle_event(UiEvent::FullChargeFinished);
    assert_eq!(r.state, AppState::Standby);
    assert_eq!(r.navigation_stack.len(), 1);
    assert_eq!(r.navigation_stack[0], AppState::Standby);
}

#[test]
fn back_requested_pops_payment_and_charging() {
    let mut r = Router::new();
    r.push_screen(AppState::Standby);
    r.push_screen(AppState::SelectAmount(ChargeType::Percent(0)));
    r.push_screen(AppState::Payment(ChargeType::Percent(0), 80));
    r.handle_event(UiEvent::BackRequested);
    assert_eq!(r.state, AppState::SelectAmount(ChargeType::Percent(0)));
    r.handle_event(UiEvent::BackRequested);
    assert_eq!(r.state, AppState::Standby);
}

#[test]
fn unrelated_event_is_rejected() {
    let mut r = Router::new();
    r.push_screen(AppState::Standby);
    let state_before = r.state;
    let len_before = r.navigation_stack.len();
    r.handle_event(UiEvent::ReturnHome);
    r.handle_event(UiEvent::ChargingFinished);
    r.handle_event(UiEvent::AmountConfirmed(10));
    assert_eq!(r.state, state_before);
    assert_eq!(r.navigation_stack.len(), len_before);
}

#[test]
fn go_to_helpers_set_state_only() {
    let mut r = Router::new();
    let len = r.navigation_stack.len();
    r.go_to_full_charge();
    assert!(r.is_full_charge());
    r.go_to_standby();
    assert!(r.is_standby());
    r.go_to_splash();
    assert!(r.is_splash());
    r.go_to_select_amount(ChargeType::Percent(0));
    assert_eq!(r.state, AppState::SelectAmount(ChargeType::Percent(0)));
    r.go_to_payment(ChargeType::Percent(0), 80);
    assert_eq!(r.state, AppState::Payment(ChargeType::Percent(0), 80));
    r.go_to_complete(ChargeType::Percent(0), 80, PaymentMethod::Membership, 80, 1000);
    assert_eq!(
        r.state,
        AppState::Complete(ChargeType::Percent(0), 80, PaymentMethod::Membership, 80, 1000)
    );
    assert_eq!(r.navigation_stack.len(), len);
}

#[test]
fn get_navigation_stack_reflects_history() {
    let mut r = Router::new();
    r.push_screen(AppState::Standby);
    let stack = r.get_navigation_stack();
    assert_eq!(stack.len(), 2);
    assert_eq!(stack[0], AppState::Splash);
    assert_eq!(stack[1], AppState::Splash);
}
