//! The owner that is signalled when a file in async mode becomes ready.

use vstd::prelude::*;
use crate::kernel::waiter::WaitEntry;
use crate::qlib::linux_def::EventMask;

verus! {

/// The events that the owner of an async file hears of.
pub const ASYNC_EVENTS: EventMask = 0x1d;

/// The async owner of a file: the waiter that stands for the process or
/// thread to signal.
#[derive(Clone, Copy, Debug, PartialEq, Eq, Structural)]
pub struct FileAsync {
    pub e: WaitEntry,
}

} // verus!
