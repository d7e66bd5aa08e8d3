//! The EV-connector handshake, simulated as a purely time-driven state
//! machine.
//!
//! The sequencer is advanced once per poll with the cumulative time
//! elapsed since the kiosk entered the connect screen; each call moves
//! it forward by at most one phase.  An `Error` state is reserved: the
//! only way into it is an explicit hardware-fault signal, and no retry
//! path out of it is defined.

use vstd::prelude::*;

verus! {

/// Handshake phases, in strict forward order.
#[derive(Clone, Copy, Debug, PartialEq, Eq, Structural)]
pub enum ConnectionStatus {
    /// Waiting for the EV connector (first second).
    Waiting,
    /// Establishing the electrical connection (second second).
    Connecting,
    /// Verifying the communication protocol (third second).
    Verifying,
    /// Finalizing the connection (until five seconds have passed).
    Finalizing,
    /// EV connected; the handshake is complete.
    Connected,
    /// A hardware fault was reported; never left.
    Error,
}

/// One phase step: the status after a poll at `elapsed_ms` milliseconds
/// since the connect screen was entered.  Each poll advances at most
/// one phase, strictly after the phase's threshold.
pub open spec fn spec_advance(status: ConnectionStatus, elapsed_ms: u64) -> ConnectionStatus {
    match status {
        ConnectionStatus::Waiting => if elapsed_ms > 1000 {
            ConnectionStatus::Connecting
        } else {
            ConnectionStatus::Waiting
        },
        ConnectionStatus::Connecting => if elapsed_ms > 2000 {
            ConnectionStatus::Verifying
        } else {
            ConnectionStatus::Connecting
        },
        ConnectionStatus::Verifying => if elapsed_ms > 3000 {
            ConnectionStatus::Finalizing
        } else {
            ConnectionStatus::Verifying
        },
        ConnectionStatus::Finalizing => if elapsed_ms > 5000 {
            ConnectionStatus::Connected
        } else {
            ConnectionStatus::Finalizing
        },
        ConnectionStatus::Connected => ConnectionStatus::Connected,
        ConnectionStatus::Error => ConnectionStatus::Error,
    }
}

/// The timed state machine simulating the EV-connector handshake.
#[derive(Clone, Copy, Debug)]
pub struct ConnectionSequencer {
    status: ConnectionStatus,
}

impl ConnectionSequencer {
    /// The status the sequencer currently reports.
    pub closed spec fn spec_status(self) -> ConnectionStatus {
        self.status
    }

    /// A fresh sequencer, waiting for the connector.
    pub fn new() -> (s: ConnectionSequencer)
        ensures
            s.spec_status() is Waiting,
    {
        ConnectionSequencer { status: ConnectionStatus::Waiting }
    }

    /// One poll at `elapsed_ms` milliseconds since the connect screen
    /// was entered: moves forward by at most one phase.
    pub fn advance(&mut self, elapsed_ms: u64)
        ensures
            final(self).spec_status() == spec_advance(old(self).spec_status(), elapsed_ms),
    {
        self.status = match self.status {
            ConnectionStatus::Waiting => if elapsed_ms > 1000 {
                ConnectionStatus::Connecting
            } else {
                ConnectionStatus::Waiting
            },
            ConnectionStatus::Connecting => if elapsed_ms > 2000 {
                ConnectionStatus::Verifying
            } else {
                ConnectionStatus::Connecting
            },
            ConnectionStatus::Verifying => if elapsed_ms > 3000 {
                ConnectionStatus::Finalizing
            } else {
                ConnectionStatus::Verifying
            },
            ConnectionStatus::Finalizing => if elapsed_ms > 5000 {
                ConnectionStatus::Connected
            } else {
                ConnectionStatus::Finalizing
            },
            ConnectionStatus::Connected => ConnectionStatus::Connected,
            ConnectionStatus::Error => ConnectionStatus::Error,
        };
    }

    /// Records an explicit hardware-fault signal; the sequencer then
    /// stays in `Error`.
    pub fn signal_fault(&mut self)
        ensures
            final(self).spec_status() is Error,
    {
        self.status = ConnectionStatus::Error;
    }

    /// The current handshake status.
    pub fn get_connection_status(&self) -> (r: &ConnectionStatus)
        ensures
            *r == self.spec_status(),
    {
        &self.status
    }

    /// True only in `Connected`.
    pub fn is_connection_complete(&self) -> (b: bool)
        ensures
            b == (self.spec_status() is Connected),
    {
        matches!(self.status, ConnectionStatus::Connected)
    }
}

} // verus!
