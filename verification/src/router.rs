//! The navigation controller: the kiosk's top-level state machine.
//!
//! A [`Router`] owns the current screen state and a back-navigation
//! stack of previously visited states, each carrying the payload the
//! next screen needs.  Screens emit [`UiEvent`] signals once per poll;
//! [`Router::handle_event`] consumes one signal and performs exactly
//! the transition given by [`spec_transition`].  A signal that does not
//! apply to the current state is rejected: the router stays put and
//! never panics.

use vstd::prelude::*;

use crate::screen::payment_screen::{quoted_cost, compute_quoted_cost, PaymentMethod};
use crate::screen::select_amount_screen::ChargeType;

verus! {

/// Duration reported for a finished charge, in milliseconds (a fixed
/// five-minute simulation).
pub const COMPLETE_DURATION_MS: u64 = 300_000;

/// One kiosk screen, carrying only the data that screen needs.
#[derive(Clone, Copy, Debug, PartialEq, Eq, Structural)]
pub enum AppState {
    Splash,
    Connect(ChargeType),
    Standby,
    FullCharge,
    SelectAmount(ChargeType),
    /// Charge selection and chosen amount (kilowatts or percent).
    Payment(ChargeType, u64),
    /// Selection, amount, and chosen payment method.
    Charging(ChargeType, u64, PaymentMethod),
    /// Selection, amount, method, total cost in tenths of a currency
    /// unit, and duration in milliseconds.
    Complete(ChargeType, u64, PaymentMethod, u64, u64),
}

/// Screen history: insertion order is visit order; the current state is
/// kept beside it in the router.
pub type NavigationStack = Vec<AppState>;

/// A user-intent or timer signal emitted by the active screen.
#[derive(Clone, Copy, Debug)]
pub enum UiEvent {
    /// The splash animation timer elapsed.
    SplashFinished,
    /// The connection handshake reports connected.
    ConnectionCompleted,
    /// "Full charge" chosen on the standby screen.
    FullChargeSelected,
    /// "Specific watts" chosen on the standby screen.
    SpecificWattsSelected,
    /// "Percent" chosen on the standby screen.
    PercentSelected,
    /// Proceed from the amount screen with the entered amount.
    AmountConfirmed(u64),
    /// Proceed from the payment screen; `None` when no method was
    /// chosen, which rejects the transition.
    PaymentConfirmed(Option<PaymentMethod>),
    /// The charging screen's simulation reached its target.
    ChargingFinished,
    /// The full-charge screen finished and the user confirmed.
    FullChargeFinished,
    /// The back button of the active screen.
    BackRequested,
    /// "Return home" on the completion screen.
    ReturnHome,
}

/// A push: the current state is appended to the history and the new
/// state becomes current, unless it equals the current state (a
/// duplicate push is a no-op, so repeated signals from the same screen
/// tick cannot grow the stack).
pub open spec fn spec_push(state: AppState, stack: Seq<AppState>, new_state: AppState) -> (
    AppState,
    Seq<AppState>,
) {
    if new_state == state {
        (state, stack)
    } else {
        (new_state, stack.push(state))
    }
}

/// A pop: the most recent history entry becomes current, but only if
/// more than one entry remains; at the root nothing changes.
pub open spec fn spec_pop(state: AppState, stack: Seq<AppState>) -> (AppState, Seq<AppState>) {
    if stack.len() > 1 {
        (stack.last(), stack.drop_last())
    } else {
        (state, stack)
    }
}

/// The navigation state machine: the state and stack after one signal.
/// Any pairing of state and signal not listed is rejected and changes
/// nothing.
pub open spec fn spec_transition(state: AppState, stack: Seq<AppState>, event: UiEvent) -> (
    AppState,
    Seq<AppState>,
) {
    match (state, event) {
        (AppState::Splash, UiEvent::SplashFinished) => spec_push(
            state,
            stack,
            AppState::Connect(ChargeType::SpecificWatts(0)),
        ),
        (AppState::Connect(_), UiEvent::ConnectionCompleted) => spec_push(
            state,
            stack,
            AppState::Standby,
        ),
        (AppState::Standby, UiEvent::FullChargeSelected) => spec_push(
            state,
            stack,
            AppState::FullCharge,
        ),
        (AppState::Standby, UiEvent::SpecificWattsSelected) => spec_push(
            state,
            stack,
            AppState::SelectAmount(ChargeType::SpecificWatts(0)),
        ),
        (AppState::Standby, UiEvent::PercentSelected) => spec_push(
            state,
            stack,
            AppState::SelectAmount(ChargeType::Percent(0)),
        ),
        (AppState::FullCharge, UiEvent::FullChargeFinished) => (
            AppState::Standby,
            seq![AppState::Standby],
        ),
        (AppState::SelectAmount(t), UiEvent::AmountConfirmed(amount)) => spec_push(
            state,
            stack,
            AppState::Payment(t, amount),
        ),
        (AppState::Payment(t, amount), UiEvent::PaymentConfirmed(m)) => match m {
            Some(method) => spec_push(state, stack, AppState::Charging(t, amount, method)),
            None => (state, stack),
        },
        (AppState::Charging(t, amount, method), UiEvent::ChargingFinished) => spec_push(
            state,
            stack,
            AppState::Complete(t, amount, method, quoted_cost(t), COMPLETE_DURATION_MS),
        ),
        (AppState::FullCharge, UiEvent::BackRequested) => spec_pop(state, stack),
        (AppState::SelectAmount(_), UiEvent::BackRequested) => spec_pop(state, stack),
        (AppState::Payment(_, _), UiEvent::BackRequested) => spec_pop(state, stack),
        (AppState::Charging(_, _, _), UiEvent::BackRequested) => spec_pop(state, stack),
        (AppState::Complete(_, _, _, _, _), UiEvent::ReturnHome) => (
            AppState::Standby,
            seq![AppState::Standby],
        ),
        _ => (state, stack),
    }
}

/// The top-level navigation controller.
pub struct Router {
    pub state: AppState,
    pub navigation_stack: NavigationStack,
}

impl Router {
    /// The router's invariant: the history is never empty and its root
    /// is the splash or the standby screen.
    pub open spec fn wf(self) -> bool {
        &&& self.navigation_stack@.len() >= 1
        &&& (self.navigation_stack@[0] is Splash || self.navigation_stack@[0] is Standby)
    }

    /// A fresh router on the splash screen, with the splash as the only
    /// history entry.
    pub fn new() -> (r: Router)
        ensures
            r.state is Splash,
            r.navigation_stack@ == seq![AppState::Splash],
            r.wf(),
    {
        let mut navigation_stack: NavigationStack = Vec::new();
        navigation_stack.push(AppState::Splash);
        proof {
            assert(navigation_stack@ =~= seq![AppState::Splash]);
        }
        Router { state: AppState::Splash, navigation_stack }
    }

    /// Appends the current state to the history and makes `new_state`
    /// current, unless it already is: exactly [`spec_push`].
    pub fn push_screen(&mut self, new_state: AppState)
        ensures
            final(self).state == spec_push(
                old(self).state,
                old(self).navigation_stack@,
                new_state,
            ).0,
            final(self).navigation_stack@ == spec_push(
                old(self).state,
                old(self).navigation_stack@,
                new_state,
            ).1,
            old(self).wf() ==> final(self).wf(),
    {
        if self.state != new_state {
            self.navigation_stack.push(self.state);
            self.state = new_state;
        }
    }

    /// Removes the current state and restores the previous one, but
    /// only if more than one history entry remains: exactly
    /// [`spec_pop`].  Returns the new current state, or `None` to
    /// signal that there was nothing to pop.
    pub fn pop_screen(&mut self) -> (r: Option<AppState>)
        ensures
            final(self).state == spec_pop(old(self).state, old(self).navigation_stack@).0,
            final(self).navigation_stack@ == spec_pop(
                old(self).state,
                old(self).navigation_stack@,
            ).1,
            old(self).navigation_stack@.len() > 1 ==> r == Some(final(self).state),
            old(self).navigation_stack@.len() <= 1 ==> r is None && *final(self) == *old(self),
            old(self).wf() ==> final(self).wf(),
    {
        if self.navigation_stack.len() > 1 {
            let previous_state = self.navigation_stack.pop();
            match previous_state {
                Some(prev) => {
                    self.state = prev;
                    Some(self.state)
                },
                None => None,
            }
        } else {
            None
        }
    }

    /// True when a back navigation would change the state.
    pub fn can_go_back(&self) -> (b: bool)
        ensures
            b == (self.navigation_stack@.len() > 1),
    {
        self.navigation_stack.len() > 1
    }

    /// The history, oldest entry first.
    pub fn get_navigation_stack(&self) -> (r: &NavigationStack)
        ensures
            r@ == self.navigation_stack@,
    {
        &self.navigation_stack
    }

    /// Consumes one screen signal and performs exactly the transition
    /// of [`spec_transition`]; a signal that does not apply leaves the
    /// router unchanged.
    pub fn handle_event(&mut self, event: UiEvent)
        ensures
            final(self).state == spec_transition(
                old(self).state,
                old(self).navigation_stack@,
                event,
            ).0,
            final(self).navigation_stack@ == spec_transition(
                old(self).state,
                old(self).navigation_stack@,
                event,
            ).1,
            old(self).wf() ==> final(self).wf(),
    {
        match (self.state, event) {
            (AppState::Splash, UiEvent::SplashFinished) => {
                self.push_screen(AppState::Connect(ChargeType::SpecificWatts(0)));
            },
            (AppState::Connect(_), UiEvent::ConnectionCompleted) => {
                self.push_screen(AppState::Standby);
            },
            (AppState::Standby, UiEvent::FullChargeSelected) => {
                self.push_screen(AppState::FullCharge);
            },
            (AppState::Standby, UiEvent::SpecificWattsSelected) => {
                self.push_screen(AppState::SelectAmount(ChargeType::SpecificWatts(0)));
            },
            (AppState::Standby, UiEvent::PercentSelected) => {
                self.push_screen(AppState::SelectAmount(ChargeType::Percent(0)));
            },
            (AppState::FullCharge, UiEvent::FullChargeFinished) => {
                self.reset_to_standby();
            },
            (AppState::SelectAmount(t), UiEvent::AmountConfirmed(amount)) => {
                self.push_screen(AppState::Payment(t, amount));
            },
            (AppState::Payment(t, amount), UiEvent::PaymentConfirmed(m)) => {
                if let Some(method) = m {
                    self.push_screen(AppState::Charging(t, amount, method));
                }
            },
            (AppState::Charging(t, amount, method), UiEvent::ChargingFinished) => {
                let total_cost = compute_quoted_cost(t);
                self.push_screen(
                    AppState::Complete(t, amount, method, total_cost, COMPLETE_DURATION_MS),
                );
            },
            (AppState::FullCharge, UiEvent::BackRequested) => {
                self.pop_screen();
            },
            (AppState::SelectAmount(_), UiEvent::BackRequested) => {
                self.pop_screen();
            },
            (AppState::Payment(_, _), UiEvent::BackRequested) => {
                self.pop_screen();
            },
            (AppState::Charging(_, _, _), UiEvent::BackRequested) => {
                self.pop_screen();
            },
            (AppState::Complete(_, _, _, _, _), UiEvent::ReturnHome) => {
                self.reset_to_standby();
            },
            _ => {},
        }
    }

    /// Clears the history back to a single standby entry and makes
    /// standby current.
    fn reset_to_standby(&mut self)
        ensures
            final(self).state is Standby,
            final(self).navigation_stack@ == seq![AppState::Standby],
            final(self).wf(),
    {
        self.navigation_stack.clear();
        self.navigation_stack.push(AppState::Standby);
        self.state = AppState::Standby;
        proof {
            assert(self.navigation_stack@ =~= seq![AppState::Standby]);
        }
    }

    /// Jumps straight to standby without touching the history.
    pub fn go_to_standby(&mut self)
        ensures
            final(self).state is Standby,
            final(self).navigation_stack@ == old(self).navigation_stack@,
            old(self).wf() ==> final(self).wf(),
    {
        self.state = AppState::Standby;
    }

    /// Jumps straight to the full-charge screen without touching the
    /// history.
    pub fn go_to_full_charge(&mut self)
        ensures
            final(self).state is FullCharge,
            final(self).navigation_stack@ == old(self).navigation_stack@,
            old(self).wf() ==> final(self).wf(),
    {
        self.state = AppState::FullCharge;
    }

    /// Jumps straight to the splash screen without touching the
    /// history.
    pub fn go_to_splash(&mut self)
        ensures
            final(self).state is Splash,
            final(self).navigation_stack@ == old(self).navigation_stack@,
            old(self).wf() ==> final(self).wf(),
    {
        self.state = AppState::Splash;
    }

    /// Jumps to the amount-selection screen for the given charge type.
    pub fn go_to_select_amount(&mut self, charge_type: ChargeType)
        ensures
            final(self).state == AppState::SelectAmount(charge_type),
            final(self).navigation_stack@ == old(self).navigation_stack@,
            old(self).wf() ==> final(self).wf(),
    {
        self.state = AppState::SelectAmount(charge_type);
    }

    /// Jumps to the payment screen for the given selection.
    pub fn go_to_payment(&mut self, charge_type: ChargeType, amount: u64)
        ensures
            final(self).state == AppState::Payment(charge_type, amount),
            final(self).navigation_stack@ == old(self).navigation_stack@,
            old(self).wf() ==> final(self).wf(),
    {
        self.state = AppState::Payment(charge_type, amount);
    }

    /// Jumps to the charging screen for the given selection.
    pub fn go_to_charging(&mut self, charge_type: ChargeType, amount: u64, method: PaymentMethod)
        ensures
            final(self).state == AppState::Charging(charge_type, amount, method),
            final(self).navigation_stack@ == old(self).navigation_stack@,
            old(self).wf() ==> final(self).wf(),
    {
        self.state = AppState::Charging(charge_type, amount, method);
    }

    /// Jumps to the completion screen with the given summary.
    pub fn go_to_complete(
        &mut self,
        charge_type: ChargeType,
        amount: u64,
        method: PaymentMethod,
        total_cost: u64,
        duration_ms: u64,
    )
        ensures
            final(self).state == AppState::Complete(
                charge_type,
                amount,
                method,
                total_cost,
                duration_ms,
            ),
            final(self).navigation_stack@ == old(self).navigation_stack@,
            old(self).wf() ==> final(self).wf(),
    {
        self.state = AppState::Complete(charge_type, amount, method, total_cost, duration_ms);
    }

    pub fn is_splash(&self) -> (b: bool)
        ensures
            b == (self.state is Splash),
    {
        matches!(self.state, AppState::Splash)
    }

    pub fn is_standby(&self) -> (b: bool)
        ensures
            b == (self.state is Standby),
    {
        matches!(self.state, AppState::Standby)
    }

    pub fn is_full_charge(&self) -> (b: bool)
        ensures
            b == (self.state is FullCharge),
    {
        matches!(self.state, AppState::FullCharge)
    }
}

/// Law: a push of a state different from the current one, followed
/// immediately by a pop, restores the previous current state and the
/// previous stack exactly.
pub proof fn lemma_push_then_pop(state: AppState, stack: Seq<AppState>, new_state: AppState)
    requires
        stack.len() >= 1,
        new_state != state,
    ensures
        spec_pop(
            spec_push(state, stack, new_state).0,
            spec_push(state, stack, new_state).1,
        ) == (state, stack),
{
    let pushed = spec_push(state, stack, new_state);
    assert(pushed.1.drop_last() =~= stack);
}

/// Law: a pop at the root (a single-entry history) changes nothing;
/// the executable `pop_screen` additionally signals it by returning
/// `None`.
pub proof fn lemma_pop_at_root(state: AppState, stack: Seq<AppState>)
    requires
        stack.len() <= 1,
    ensures
        spec_pop(state, stack) == (state, stack),
{
}

} // verus!
