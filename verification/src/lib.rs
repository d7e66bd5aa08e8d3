//! Verified core of an electric-vehicle charging kiosk.
//!
//! The crate models the two cooperating state machines that drive one
//! charging transaction: a navigation controller that sequences kiosk
//! screens with back-navigation, and a charging session engine that
//! advances simulated energy, cost and battery state over time and
//! decides when a charge target has been met.  A timed connection
//! sequencer simulates the EV-connector handshake, and small screen
//! models carry the per-screen state that the rendering layer polls.
//!
//! All physical quantities are fixed-point integers so that every
//! arithmetic step is exact and provable: power in watts, elapsed time
//! in thousandths of an hour, energy in milliwatt-hours, cost in
//! millionths of a currency unit, and battery level in millionths of a
//! percent.

pub mod charging;
pub mod config;
pub mod connection;
pub mod error;
pub mod layout;
pub mod router;
pub mod screen;
pub mod ui_screens;

pub use error::{AppError, AppResult};
