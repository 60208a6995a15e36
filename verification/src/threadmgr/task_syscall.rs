//! Results of system calls that ask to be restarted.

use vstd::prelude::*;
use crate::qlib::common::SysErr;

verus! {

/// What a system call returns for errno `e`: minus `e` as 64 bits.
pub open spec fn ErrnoReturn(e: i32) -> u64 {
    (0x1_0000_0000_0000_0000 - e) as u64
}

/// The restart errno that the return value `rv` stands for, if it stands
/// for one: `ERESTARTSYS`, `ERESTARTNOINTR`, `ERESTARTNOHAND` or
/// `ERESTART_RESTARTBLOCK`.
pub open spec fn RestartErrno(rv: u64) -> Option<i32> {
    if rv == ErrnoReturn(SysErr::ERESTARTSYS) {
        Some(SysErr::ERESTARTSYS)
    } else if rv == ErrnoReturn(SysErr::ERESTARTNOINTR) {
        Some(SysErr::ERESTARTNOINTR)
    } else if rv == ErrnoReturn(SysErr::ERESTARTNOHAND) {
        Some(SysErr::ERESTARTNOHAND)
    } else if rv == ErrnoReturn(SysErr::ERESTART_RESTARTBLOCK) {
        Some(SysErr::ERESTART_RESTARTBLOCK)
    } else {
        None
    }
}

/// Tells whether the return value `rv` of a system call asks for a
/// restart, and with which errno; `(0, false)` if it does not.
pub fn SyscallRestartErrnoFromReturn(rv: u64) -> (r: (i32, bool))
    ensures
        r.1 == (RestartErrno(rv) is Some),
        r.1 ==> Some(r.0) == RestartErrno(rv),
        !r.1 ==> r.0 == 0,
{
    if rv == 0xffff_ffff_ffff_fe00 {
        (SysErr::ERESTARTSYS, true)
    } else if rv == 0xffff_ffff_ffff_fdff {
        (SysErr::ERESTARTNOINTR, true)
    } else if rv == 0xffff_ffff_ffff_fdfe {
        (SysErr::ERESTARTNOHAND, true)
    } else if rv == 0xffff_ffff_ffff_fdfc {
        (SysErr::ERESTART_RESTARTBLOCK, true)
    } else {
        (0, false)
    }
}

} // verus!
