//! Tests for the per-screen state models and the configuration.

use ev_kiosk::config::Config;
use ev_kiosk::layout::AppBar;
use ev_kiosk::screen::charging_screen::ChargingScreen;
use ev_kiosk::screen::complete_screen::CompleteScreen;
use ev_kiosk::screen::full_charge_screen::{FullChargeScreen, FULL_CHARGE_TIME_MS};
use ev_kiosk::screen::payment_screen::{PaymentMethod, PaymentScreen};
use ev_kiosk::screen::select_amount_screen::{parse_amount, ChargeType, SelectAmountScreen};
use ev_kiosk::screen::splash_screen::SplashScreen;
use ev_kiosk::screen::standby_screen::StandbyScreen;
use ev_kiosk::ui_screens::{ErrorScreen, HomeScreen};

#[test]
fn parse_amount_accepts_digit_strings() {
    assert_eq!(parse_amount("50"), 50);
    assert_eq!(parse_amount("80"), 80);
    assert_eq!(parse_amount("0"), 0);
    assert_eq!(parse_amount("007"), 7);
    assert_eq!(parse_amount("18446744073709551615"), u64::MAX);
}

#[test]
fn parse_amount_rejects_everything_else() {
    assert_eq!(parse_amount(""), 0);
    assert_eq!(parse_amount("12a"), 0);
    assert_eq!(parse_amount("a12"), 0);
    assert_eq!(parse_amount("-5"), 0);
    assert_eq!(parse_amount("3.5"), 0);
    assert_eq!(parse_amount(" 5"), 0);
    // one past u64::MAX, and a much longer overflow
    assert_eq!(parse_amount("18446744073709551616"), 0);
    assert_eq!(parse_amount("99999999999999999999999"), 0);
}

#[test]
fn select_amount_screen_defaults() {
    let s = SelectAmountScreen::new(ChargeType::SpecificWatts(0));
    assert_eq!(s.input_value, "50");
    assert_eq!(s.get_input_value(), 50);
    assert_eq!(s.get_charge_type(), ChargeType::SpecificWatts(0));
    assert_eq!(s.app_bar.title(), "Select Charging Amount(kW)");
    assert!(s.app_bar.has_back_button());
    let p = SelectAmountScreen::new(ChargeType::Percent(0));
    assert_eq!(p.input_value, "80");
    assert_eq!(p.get_input_value(), 80);
    assert_eq!(p.app_bar.title(), "Select Target Battery Level");
}

#[test]
fn select_amount_screen_edits_and_flags() {
    let mut s = SelectAmountScreen::new(ChargeType::SpecificWatts(0));
    s.set_input_value("120".to_string());
    assert_eq!(s.get_input_value(), 120);
    assert!(!s.is_proceed_clicked());
    s.press_proceed();
    assert!(s.is_proceed_clicked());
    s.reset_proceed_clicked();
    assert!(!s.is_proceed_clicked());
    assert!(!s.is_back_clicked());
    s.app_bar.record_back_click();
    assert!(s.is_back_clicked());
    s.reset_back_clicked();
    assert!(!s.is_back_clicked());
}

#[test]
fn payment_screen_quotes_cost() {
    // 50 kW at 0.2 units per kW: 10 units = 100 tenths
    let s = PaymentScreen::new(ChargeType::SpecificWatts(50), 50);
    assert_eq!(s.calculate_cost(), 100);
    // 80 percent at 0.1 unit per percent: 8 units = 80 tenths
    let p = PaymentScreen::new(ChargeType::Percent(80), 80);
    assert_eq!(p.calculate_cost(), 80);
}

#[test]
fn payment_screen_selection_flow() {
    let mut s = PaymentScreen::new(ChargeType::Percent(80), 80);
    assert_eq!(s.get_selected_payment(), None);
    assert_eq!(s.app_bar.title(), "Select Payment Method");
    s.select_payment(PaymentMethod::MobileApp);
    assert_eq!(s.get_selected_payment(), Some(PaymentMethod::MobileApp));
    s.press_proceed();
    assert!(s.is_proceed_clicked());
    s.reset_proceed_clicked();
    assert!(!s.is_proceed_clicked());
}

#[test]
fn charging_screen_simulates_specific_watts() {
    let mut s =
        ChargingScreen::new(ChargeType::SpecificWatts(50), 50, PaymentMethod::CreditCard);
    assert_eq!(s.app_bar.title(), "Charging in Progress");
    // 50 kW at 6 s per kW: 300 s total; halfway after 150 s
    s.update_charging(150_000);
    assert_eq!(s.current_progress, 500);
    assert_eq!(s.charging_power, 50);
    assert_eq!(s.estimated_time_ms, 150_000);
    assert!(!s.is_charging_complete());
    s.update_charging(300_000);
    assert_eq!(s.current_progress, 1000);
    assert_eq!(s.estimated_time_ms, 0);
    assert!(s.is_charging_complete());
}

#[test]
fn charging_screen_simulates_percent() {
    let mut s = ChargingScreen::new(ChargeType::Percent(10), 10, PaymentMethod::RFID);
    // 10 percent at 3 s per percent: 30 s total; power fixed at 50 kW
    s.update_charging(15_000);
    assert_eq!(s.current_progress, 500);
    assert_eq!(s.charging_power, 50);
    assert_eq!(s.estimated_time_ms, 15_000);
    s.update_charging(30_000);
    assert!(s.is_charging_complete());
}

#[test]
fn charging_screen_zero_amount_is_immediately_complete() {
    let mut s = ChargingScreen::new(ChargeType::SpecificWatts(0), 0, PaymentMethod::CreditCard);
    s.update_charging(0);
    assert_eq!(s.current_progress, 1000);
    assert!(s.is_charging_complete());
}

#[test]
fn charging_screen_completion_is_sticky() {
    let mut s = ChargingScreen::new(ChargeType::Percent(1), 1, PaymentMethod::CreditCard);
    s.update_charging(3_000);
    assert!(s.is_charging_complete());
    s.update_charging(1_000);
    assert!(s.is_charging_complete());
}

#[test]
fn full_charge_screen_simulation() {
    let mut s = FullChargeScreen::new();
    assert_eq!(s.app_bar.title(), "Full Charge in Progress");
    s.update_charging(FULL_CHARGE_TIME_MS / 2);
    assert_eq!(s.battery_level, 500);
    assert_eq!(s.charging_power, 50);
    assert_eq!(s.estimated_time_ms, FULL_CHARGE_TIME_MS / 2);
    assert!(!s.is_charging_complete());
    s.update_charging(FULL_CHARGE_TIME_MS);
    assert_eq!(s.battery_level, 1000);
    assert_eq!(s.estimated_time_ms, 0);
    assert!(s.is_charging_complete());
}

#[test]
fn splash_screen_animation_timeline() {
    let mut s = SplashScreen::new();
    s.update_animation(250);
    assert_eq!(s.logo_scale, 500);
    assert_eq!(s.text_alpha, 0);
    assert!(!s.show_text);
    assert_eq!(s.fade_progress, 0);
    s.update_animation(1400);
    assert_eq!(s.logo_scale, 1000);
    assert!(s.show_text);
    assert_eq!(s.text_alpha, 500); // 400 ms into the 800 ms fade-in
    s.update_animation(3500);
    assert_eq!(s.text_alpha, 1000);
    assert_eq!(s.fade_progress, 500);
    assert!(!s.is_finished());
    s.update_animation(4000);
    assert!(!s.is_finished());
    s.update_animation(4001);
    assert!(s.is_finished());
}

#[test]
fn standby_screen_flags() {
    let mut s = StandbyScreen::new();
    assert!(!s.is_full_charge_clicked());
    assert!(!s.is_specific_watts_clicked());
    assert!(!s.is_percent_clicked());
    s.press_full_charge();
    s.press_specific_watts();
    s.press_percent();
    assert!(s.is_full_charge_clicked());
    assert!(s.is_specific_watts_clicked());
    assert!(s.is_percent_clicked());
    s.reset_full_charge_clicked();
    s.reset_specific_watts_clicked();
    s.reset_percent_clicked();
    assert!(!s.is_full_charge_clicked());
    assert!(!s.is_specific_watts_clicked());
    assert!(!s.is_percent_clicked());
}

#[test]
fn app_bar_state() {
    let mut bar = AppBar::new("Connect Your EV");
    assert_eq!(bar.title(), "Connect Your EV");
    assert!(!bar.has_back_button());
    assert!(!bar.is_back_clicked());
    bar = bar.with_back_button();
    assert!(bar.has_back_button());
    bar.record_back_click();
    assert!(bar.is_back_clicked());
    bar.reset_back_clicked();
    assert!(!bar.is_back_clicked());
}

#[test]
fn complete_screen_summary_and_flag() {
    let mut s = CompleteScreen::new(
        ChargeType::SpecificWatts(50),
        50,
        PaymentMethod::CreditCard,
        100,
        300_000,
    );
    assert_eq!(s.total_cost, 100);
    assert_eq!(s.charging_duration_ms, 300_000);
    assert_eq!(s.app_bar.title(), "Charging Complete");
    assert!(!s.app_bar.has_back_button());
    assert!(!s.is_return_home_clicked());
    s.press_return_home();
    assert!(s.is_return_home_clicked());
    s.reset_return_home_clicked();
    assert!(!s.is_return_home_clicked());
}

#[test]
fn error_and_home_screens() {
    let e = ErrorScreen::new("boom".to_string());
    assert_eq!(e.message(), "boom");
    let _h = HomeScreen::new();
}

#[test]
fn config_defaults() {
    let c = Config::default();
    assert_eq!(c.ui.theme, "dark");
    assert_eq!(c.ui.font_size_multiplier, 1000);
    assert!(c.ui.fullscreen);
    assert!(c.ui.always_on_top);
    assert_eq!(c.ui.screen_width, 1024);
    assert_eq!(c.ui.screen_height, 768);
    assert_eq!(c.charging.max_power, 150_000);
    assert_eq!(c.charging.price_per_kwh, 350);
    assert_eq!(c.charging.session_timeout, 1800);
    assert_eq!(c.payment.supported_methods, vec!["card", "mobile"]);
    assert_eq!(c.payment.api_endpoint, "https://api.evcharger.com");
    assert_eq!(c.payment.timeout, 30);
    assert!(!c.hardware.enable_can);
    assert!(!c.hardware.enable_gpio);
    assert_eq!(c.hardware.can_interface, "can0");
    assert_eq!(c.hardware.serial_ports, vec!["/dev/ttyUSB0"]);
    let ocpp = c.ocpp.expect("defaults include an OCPP section");
    assert_eq!(ocpp.server_url, "ws://localhost:8080");
    assert_eq!(ocpp.charger_id, "CHARGER001");
    assert_eq!(ocpp.heartbeat_interval, 30);
    assert!(c.modbus.is_none());
}
