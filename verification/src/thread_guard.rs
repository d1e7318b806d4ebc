//! The supervised worker's observable status. The supervisor thread that
//! publishes it, and the cell it is shared through, live outside the
//! library; the owner polls this value to tell a live worker from one
//! that has finished or failed.

use vstd::prelude::*;

verus! {

/// The tri-state a supervised worker publishes.
#[derive(Clone, Copy, PartialEq, Eq, Structural, Debug)]
pub enum ThreadStatus {
    /// The worker has not completed.
    Running,
    /// The worker completed normally.
    FinishedOk,
    /// The worker terminated abnormally.
    FinishedWithError,
}

impl ThreadStatus {
    /// Continued waiting on the worker is meaningful.
    pub fn is_running(&self) -> (running: bool)
        ensures
            running == (*self is Running),
    {
        match self {
            ThreadStatus::Running => true,
            _ => false,
        }
    }
}

} // verus!
