//! The kernel's record of a running task: its thread, its saved registers,
//! its alternate signal stack and its user memory.

use vstd::prelude::*;
use crate::qlib::linux_def::PtRegs;
use crate::qlib::linux_def::SignalStack;
use crate::stack::MemView;
use crate::stack::UserMemory;
use crate::threadmgr::thread::Thread;

verus! {

/// A task as the system-call and interrupt paths see it.
pub struct Task {
    /// The thread that the task runs.
    pub thread: Thread,
    /// The user registers saved on entry to the kernel.
    pub regs: PtRegs,
    /// The alternate stack for signal handlers.
    pub signalStack: SignalStack,
    /// A system call has just returned, and `regs.rax` holds its result.
    pub haveSyscallReturn: bool,
    /// The user memory that signal frames are written to.
    pub mm: UserMemory,
}

/// A `Task` as a value.
pub struct TaskView {
    pub thread: Thread,
    pub regs: PtRegs,
    pub signalStack: SignalStack,
    pub haveSyscallReturn: bool,
    pub mm: MemView,
}

impl View for Task {
    type V = TaskView;

    open spec fn view(&self) -> TaskView {
        TaskView {
            thread: self.thread,
            regs: self.regs,
            signalStack: self.signalStack,
            haveSyscallReturn: self.haveSyscallReturn,
            mm: self.mm@,
        }
    }
}

/// The number of the system call that resumes an interrupted one.
pub const SYS_RESTART_SYSCALL: u64 = 219;

/// Bytes that the instruction which enters a system call takes.
pub const SYSCALL_WIDTH: u64 = 2;

/// `rip` moved back over the instruction that entered the system call,
/// modulo 2^64.
pub open spec fn BeforeSyscall(rip: u64) -> u64 {
    if rip >= 2 {
        (rip - 2) as u64
    } else {
        (rip + 0x1_0000_0000_0000_0000 - 2) as u64
    }
}

impl Task {
    /// A task for `thread`, with registers zero, no alternate stack in use
    /// and the given user memory.
    pub fn New(thread: Thread, mm: UserMemory) -> (r: Task)
        ensures
            r@ == (TaskView {
                thread,
                regs: PtRegs::zero(),
                signalStack: SignalStack { addr: 0, flags: SignalStack::FLAG_DISABLE, size: 0 },
                haveSyscallReturn: false,
                mm: mm@,
            }),
    {
        Task {
            thread,
            regs: PtRegs::default(),
            signalStack: SignalStack { addr: 0, flags: SignalStack::FLAG_DISABLE, size: 0 },
            haveSyscallReturn: false,
            mm,
        }
    }

    /// The thread that the task runs.
    pub fn Thread(&self) -> (r: Thread)
        ensures
            r == self@.thread,
    {
        self.thread
    }

    /// The value that the system call returns.
    pub fn Return(&self) -> (r: u64)
        ensures
            r == self@.regs.rax,
    {
        self.regs.rax
    }

    /// Sets the value that the system call returns.
    pub fn SetReturn(&mut self, val: u64)
        ensures
            final(self)@ == (TaskView { regs: PtRegs { rax: val, ..old(self)@.regs }, ..old(self)@ }),
    {
        self.regs.rax = val;
    }

    /// Makes the task enter its system call again when it resumes.
    pub fn RestartSyscall(&mut self)
        ensures
            final(self)@ == (TaskView {
                regs: PtRegs {
                    rip: BeforeSyscall(old(self)@.regs.rip),
                    rax: old(self)@.regs.orig_rax,
                    ..old(self)@.regs
                },
                ..old(self)@
            }),
    {
        self.regs.rip = self.regs.rip.wrapping_sub(SYSCALL_WIDTH);
        self.regs.rax = self.regs.orig_rax;
    }

    /// Makes the task call `restart_syscall` when it resumes.
    pub fn RestartSyscallWithRestartBlock(&mut self)
        ensures
            final(self)@ == (TaskView {
                regs: PtRegs {
                    rip: BeforeSyscall(old(self)@.regs.rip),
                    rax: SYS_RESTART_SYSCALL,
                    ..old(self)@.regs
                },
                ..old(self)@
            }),
    {
        self.regs.rip = self.regs.rip.wrapping_sub(SYSCALL_WIDTH);
        self.regs.rax = SYS_RESTART_SYSCALL;
    }

    /// Sets the alternate stack for signal handlers.
    pub fn SetSignalStack(&mut self, alt: SignalStack)
        ensures
            final(self)@ == (TaskView { signalStack: alt, ..old(self)@ }),
    {
        self.signalStack = alt;
    }
}

} // verus!
