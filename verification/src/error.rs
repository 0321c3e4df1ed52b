use vstd::prelude::*;

verus! {

/// Why an operation of the service was refused or failed.
#[derive(Clone, Copy, Debug, PartialEq, Eq, Structural)]
pub enum ControlError {
    /// No device was seen after the bounded number of scans.
    DiscoveryFailed,
    /// A device was seen, but no session could be established with it.
    ConnectFailed,
    /// The reconnect ceiling was hit; the counter has been reset and a later try may succeed.
    RetryExhausted,
    /// The operation needs a session with the device and none is held.
    NoActiveLink,
    /// A power level out of range, or a program that is not valid.
    ValidationError,
    /// A duplicate program id, an edit of the running program, a start while a
    /// program runs, or a stop while none does.
    Conflict,
    /// No program has the id that was asked for.
    NotFound,
}

} // verus!
