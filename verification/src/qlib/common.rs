//! Error values and run states shared by the whole kernel core.

use vstd::prelude::*;

verus! {

/// What the dispatcher does after the current step of a task.
#[derive(Clone, Copy, Debug, PartialEq, Eq, Structural)]
pub enum TaskRunState {
    /// Resume user mode.
    RunApp,
    /// Re-enter the interrupt checks.
    RunInterrupt,
    /// Start the exit path.
    RunExit,
    /// Finish a system call and return its value.
    RunSyscallRet,
}

/// Errors surfaced at the system-call boundary.
#[derive(Clone, Debug, PartialEq, Eq)]
pub enum Error {
    /// The exact errno that the guest system call reports.
    SysError(i32),
    /// A write would pass the file size limit.
    ErrExceedsFileSizeLimit,
    /// A host-side failure, in words.
    Common(String),
    /// No error: tells the dispatcher which run state to take instead of
    /// storing a system-call return value.
    SysCallRetCtrl(TaskRunState),
}

/// Errno numbers used by this crate.
pub struct SysErr {}

impl SysErr {
    pub const ESRCH: i32 = 3;
    pub const EINTR: i32 = 4;
    pub const EIO: i32 = 5;
    pub const EAGAIN: i32 = 11;
    pub const EFAULT: i32 = 14;
    pub const ENODEV: i32 = 19;
    pub const ENOTDIR: i32 = 20;
    pub const EINVAL: i32 = 22;
    pub const ENOTTY: i32 = 25;
    pub const ESPIPE: i32 = 29;
    pub const ENOSYS: i32 = 38;
    pub const ENOEXEC: i32 = 8;
    pub const ENOTSOCK: i32 = 88;
    pub const ETIMEDOUT: i32 = 110;
    pub const ERESTARTSYS: i32 = 512;
    pub const ERESTARTNOINTR: i32 = 513;
    pub const ERESTARTNOHAND: i32 = 514;
    pub const ERESTART_RESTARTBLOCK: i32 = 516;
}

} // verus!
