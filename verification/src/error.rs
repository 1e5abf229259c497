//! What can go wrong while controlling the traced process.

use vstd::prelude::*;
use crate::status::Status;

verus! {

/// A wait on the traced process did not yield a lifecycle event.
#[derive(Clone, Copy, Debug, PartialEq, Eq, Structural)]
pub enum WaitError {
    /// The system refused the wait itself.
    Os,
    /// The system reported a state that is no stop, exit or signal death.
    UnexpectedWaitStatus,
    /// The process stopped, but its registers could not be read.
    Registers,
}

/// The liveness check itself failed; this is not "the process is dead".
pub type ProbeError = WaitError;

/// A register or memory read failed.
#[derive(Clone, Copy, Debug, PartialEq, Eq, Structural)]
pub enum ReadError {
    /// The process is not stopped, so it has nothing to read.
    NotStopped,
    /// The system refused the read: the address is not mapped, or the
    /// process cannot be read at all.
    Fault,
}

/// A lifecycle-changing command could not be carried out.
#[derive(Clone, Copy, Debug, PartialEq, Eq, Structural)]
pub enum ControlError {
    /// The process has already exited or was killed.
    NotRunning,
    /// The liveness check before the request failed.
    Probe(ProbeError),
    /// The system refused to resume or to signal the process.
    Refused,
    /// The request went through, but the wait for its effect failed.
    Wait(WaitError),
}

/// A freshly started child could not be taken under control.
#[derive(Clone, Copy, Debug, PartialEq, Eq, Structural)]
pub enum SpawnError {
    /// The target could not be started at all.
    Launch,
    /// A process is active already; the debugger owns one at a time.
    Busy,
    /// The number is no process identifier of a child.
    InvalidPid,
    /// The wait for the child's first stop failed.
    Wait(WaitError),
    /// The child's first event was not the trace trap; holds the event.
    NotTrapped(Status),
}

} // verus!
