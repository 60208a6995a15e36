//! Reasons for which a thread is held off the processor.

use vstd::prelude::*;

verus! {

/// The kinds of stop.
#[derive(Clone, Copy, Debug, PartialEq, Eq, Structural)]
pub enum TaskStopType {
    GROUPSTOP,
    PTRACESTOP,
    EXECSTOP,
    VFORKSTOP,
    OTHER,
}

/// A reason to stop a thread.
pub trait TaskStop {
    /// The kind of this stop.
    spec fn kind(&self) -> TaskStopType;

    /// Whether `SIGKILL` ends this stop.
    spec fn killable(&self) -> bool;

    fn Type(&self) -> (r: TaskStopType)
        ensures
            r == self.kind(),
    ;

    fn Killable(&self) -> (r: bool)
        ensures
            r == self.killable(),
    ;
}

/// The stop that holds a thread: what the thread records of a `TaskStop`.
#[derive(Clone, Copy, Debug, PartialEq, Eq, Structural)]
pub struct StopInForce {
    pub Type: TaskStopType,
    pub Killable: bool,
}

impl StopInForce {
    /// Whether this is a group stop.
    pub fn IsGroupStop(&self) -> (r: bool)
        ensures
            r == (self.Type == TaskStopType::GROUPSTOP),
    {
        match self.Type {
            TaskStopType::GROUPSTOP => true,
            _ => false,
        }
    }
}

} // verus!
