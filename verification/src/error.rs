//! Error kinds shared by the kiosk's domain components.

use vstd::prelude::*;

verus! {

/// A domain failure, returned from the engine or the controller to the
/// caller.  Each kind carries a human-readable message; the rendering
/// layer is expected to show an error screen and offer a path back to
/// standby.
#[derive(Clone, Debug)]
pub enum AppError {
    /// An illegal session-state transition, e.g. starting a session
    /// that is already active.
    ChargingError(String),
    /// Reserved: no component currently produces it.
    PaymentError(String),
    /// Reserved for collaborator (hardware) failures.
    HardwareError(String),
    /// Malformed or unreadable configuration.
    ConfigError(String),
}

impl AppError {
    /// The message carried by the error, whatever its kind.
    pub open spec fn spec_message(self) -> Seq<char> {
        match self {
            AppError::ChargingError(m) => m@,
            AppError::PaymentError(m) => m@,
            AppError::HardwareError(m) => m@,
            AppError::ConfigError(m) => m@,
        }
    }

    /// A copy of the message carried by the error.
    pub fn message(&self) -> (m: String)
        ensures
            m@ == self.spec_message(),
    {
        match self {
            AppError::ChargingError(m) => m.clone(),
            AppError::PaymentError(m) => m.clone(),
            AppError::HardwareError(m) => m.clone(),
            AppError::ConfigError(m) => m.clone(),
        }
    }
}

/// Result alias used throughout the kiosk's domain code.
pub type AppResult<T> = Result<T, AppError>;

} // verus!
