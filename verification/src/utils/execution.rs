//! The flag by which a run is told to stop.

use vstd::prelude::*;

verus! {

/// Whether the run goes on. Only the listener for termination signals
/// clears the flag; everything else reads it.
#[derive(Clone, Copy, Debug, PartialEq, Eq)]
pub struct ExecutionUtils {
    pub running: bool,
}

impl ExecutionUtils {
    /// The flag of a run that has begun.
    pub fn new() -> (flag: Self)
        ensures
            flag.running,
    {
        ExecutionUtils { running: true }
    }

    /// Whether the run goes on.
    pub fn is_running(&self) -> (b: bool)
        ensures
            b == self.running,
    {
        self.running
    }

    /// Sets whether the run goes on.
    pub fn set_running(&mut self, running: bool)
        ensures
            final(self).running == running,
    {
        self.running = running;
    }
}

/// Why the program ends.
#[derive(Clone, Copy, Debug, PartialEq, Eq, Structural)]
pub enum ExitReason {
    /// The work was done.
    Done,
    /// The work ended with an error.
    Error,
    /// A termination signal arrived.
    Signal,
}

/// What the program does before it ends.
#[derive(Clone, Copy, Debug, PartialEq, Eq)]
pub struct Shutdown {
    /// Clear the running flag.
    pub stop_running: bool,
    /// Terminate every tracked command.
    pub terminate_all: bool,
}

impl ExitReason {
    /// What is done before the program ends: on a signal the running flag
    /// is cleared and every tracked command is terminated, once; otherwise
    /// nothing is left to do.
    pub fn shutdown(self) -> (plan: Shutdown)
        ensures
            plan.stop_running == (self == ExitReason::Signal),
            plan.terminate_all == (self == ExitReason::Signal),
    {
        match self {
            ExitReason::Signal => Shutdown { stop_running: true, terminate_all: true },
            _ => Shutdown { stop_running: false, terminate_all: false },
        }
    }
}

} // verus!
