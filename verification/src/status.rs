//! Lifecycle events of a traced process.

use vstd::prelude::*;

verus! {

/// Number of the trace-trap signal, the stop a traced child enters right
/// after its program image is loaded.
pub const SIGTRAP: i32 = 5;

/// What a wait on the traced process reported.
#[derive(Clone, Copy, Debug, PartialEq, Eq, Structural)]
pub enum Status {
    /// The process stopped. Holds the number of the signal that stopped it
    /// and the instruction pointer it is stopped at.
    Stopped(i32, usize),
    /// The process exited normally. Holds the exit code.
    Exited(i32),
    /// The process was killed by a signal. Holds the signal's number.
    Signaled(i32),
    /// Nothing happened to any process.
    NoChange,
}

impl Status {
    /// Whether the event ends the process: no further operation is valid on
    /// a process that has exited or was killed.
    pub open spec fn terminal(self) -> bool {
        self is Exited || self is Signaled
    }

    /// Whether the event ends the process.
    pub fn is_terminal(&self) -> (r: bool)
        ensures
            r == self.terminal(),
    {
        match self {
            Status::Exited(_) => true,
            Status::Signaled(_) => true,
            Status::Stopped(_, _) => false,
            Status::NoChange => false,
        }
    }
}

} // verus!
