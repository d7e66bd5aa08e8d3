//! Per-screen state models.
//!
//! Each kiosk screen keeps the plain data the rendering layer needs:
//! intent flags recorded on button presses, the payload carried from
//! earlier screens, and the screen-level charging simulation.  All
//! timing enters through an `elapsed_ms` argument sampled once per
//! poll, which keeps every screen deterministic and testable.

pub mod charging_screen;
pub mod complete_screen;
pub mod full_charge_screen;
pub mod payment_screen;
pub mod select_amount_screen;
pub mod splash_screen;
pub mod standby_screen;

pub use charging_screen::ChargingScreen;
pub use complete_screen::CompleteScreen;
pub use full_charge_screen::FullChargeScreen;
pub use payment_screen::{PaymentMethod, PaymentScreen};
pub use select_amount_screen::{ChargeType, SelectAmountScreen};
pub use splash_screen::SplashScreen;
pub use standby_screen::StandbyScreen;
