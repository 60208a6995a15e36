//! How far a thread is on its way out.

use vstd::prelude::*;

verus! {

/// The exit states of a thread, in the order in which it passes them.
#[derive(Clone, Copy, Debug, PartialEq, Eq, Structural)]
pub enum TaskExitState {
    /// The thread runs.
    TaskExitNone,
    /// The thread has begun to exit.
    TaskExitInitiated,
    /// The thread has exited and waits to be reaped.
    TaskExitZombie,
    /// The thread is gone; no signal reaches it.
    TaskExitDead,
}

impl TaskExitState {
    /// Whether the thread has begun to exit, or is further on.
    pub open spec fn initiated(self) -> bool {
        self != TaskExitState::TaskExitNone
    }

    /// Whether the state is `TaskExitInitiated` or a later one.
    pub fn Initiated(&self) -> (r: bool)
        ensures
            r == self.initiated(),
    {
        match self {
            TaskExitState::TaskExitNone => false,
            _ => true,
        }
    }

    /// Whether the state is `TaskExitDead`.
    pub fn Dead(&self) -> (r: bool)
        ensures
            r == (*self == TaskExitState::TaskExitDead),
    {
        match self {
            TaskExitState::TaskExitDead => true,
            _ => false,
        }
    }
}

} // verus!
