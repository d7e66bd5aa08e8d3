//! Minimal screens without their own decision logic: the error screen,
//! which shows a message and offers a way home, and the home screen,
//! which only offers to start a charge.  Both are drawn entirely by the
//! rendering layer; the library holds their data.

use vstd::prelude::*;

verus! {

/// The error screen's state: the message to display.
#[derive(Clone, Debug)]
pub struct ErrorScreen {
    pub message: String,
}

impl ErrorScreen {
    /// An error screen showing the given message.
    pub fn new(message: String) -> (s: ErrorScreen)
        ensures
            s.message == message,
    {
        ErrorScreen { message }
    }

    /// The message to display.
    pub fn message(&self) -> (m: &String)
        ensures
            m == &self.message,
    {
        &self.message
    }
}

/// The home screen holds no state of its own: it only reports whether
/// the start-charging button was pressed, which the rendering layer
/// returns directly.
#[derive(Clone, Copy, Debug)]
pub struct HomeScreen {}

impl HomeScreen {
    /// A fresh home screen.
    pub fn new() -> HomeScreen {
        HomeScreen {}
    }
}

} // verus!
