use quark_core::kernel::waiter::WaitEntry;
use quark_core::qlib::common::Error;
use quark_core::qlib::common::SysErr;
use quark_core::qlib::common::TaskRunState;
use quark_core::qlib::linux_def::EflagsDef;
use quark_core::qlib::linux_def::PtRegs;
use quark_core::qlib::linux_def::SigAct;
use quark_core::qlib::linux_def::SigFlag;
use quark_core::qlib::linux_def::Signal;
use quark_core::qlib::linux_def::SignalInfo;
use quark_core::qlib::linux_def::SignalSet;
use quark_core::qlib::linux_def::SignalStack;
use quark_core::qlib::linux_def::UNMASKABLE_MASK;
use quark_core::stack::Stack;
use quark_core::stack::StackValue;
use quark_core::stack::UserMemory;
use quark_core::task::Task;
use quark_core::threadmgr::task_stop::TaskStopType;
use quark_core::threadmgr::task_syscall::SyscallRestartErrnoFromReturn;
use quark_core::threadmgr::thread::Thread;
use quark_core::threadmgr::thread::ThreadInternal;
use quark_core::threadmgr::thread_group::TaskSet;
use quark_core::threadmgr::thread_group::ThreadGroup;
use quark_core::threadmgr::thread_group::ThreadGroupInternal;
use quark_core::threadmgr::thread_group::EVENT_CHILD_GROUP_STOP;
use quark_core::threadmgr::thread_group::EVENT_GROUP_CONTINUE;

const LO: u64 = 0x1000;
const HI: u64 = 0x10_0000;
const SP: u64 = 0x8_0000;
const HANDLER: u64 = 0x40_1000;
const RESTORER: u64 = 0x40_2000;

fn info(signo: i32) -> SignalInfo {
    SignalInfo { Signo: signo, Errno: 0, Code: 0, pid: 0, uid: 0, status: 0, addr: 0 }
}

fn bit(signo: i32) -> u64 {
    1u64 << (signo - 1)
}

fn act() -> SigAct {
    SigAct { handler: HANDLER, flags: SigFlag(0), restorer: RESTORER, mask: 0 }
}

fn one_group(threads: usize) -> TaskSet {
    let mut g = ThreadGroupInternal::New();
    for i in 0..threads {
        g.AddThread(ThreadInternal::New(100 + i as i32, 1000, None));
    }
    TaskSet { groups: vec![g] }
}

fn task(thread: Thread) -> Task {
    let mut t = Task::New(thread, UserMemory::New(LO, HI));
    t.regs.rsp = SP;
    t.regs.rip = 0x40_0123;
    t.regs.rax = 7;
    t.regs.rbx = 11;
    t.regs.r15 = 15;
    t.regs.eflags = 0x246;
    t
}

const T0: Thread = Thread { tg: 0, idx: 0 };
const T1: Thread = Thread { tg: 0, idx: 1 };

#[test]
fn stack_pushes_grow_downwards() {
    let mut mem = UserMemory::New(LO, HI);
    let mut s = Stack::New(SP);
    assert_eq!(s.PushU64(&mut mem, 5), Ok(SP - 8));
    assert_eq!(s.PushType(&mut mem, StackValue::Info(info(3))), Ok(SP - 8 - 128));
    assert_eq!(s.sp, SP - 136);
    assert_eq!(mem.Find(SP - 8), Some(StackValue::Word(5)));
    assert_eq!(s.PopInfo(&mem), Ok(info(3)));
    assert_eq!(s.sp, SP - 8);
    assert_eq!(s.PopInfo(&mem), Err(Error::SysError(SysErr::EFAULT)));
    assert_eq!(s.sp, SP - 8);
}

#[test]
fn stack_push_outside_the_mapping_is_efault() {
    let mut mem = UserMemory::New(LO, HI);
    let mut s = Stack::New(LO + 4);
    assert_eq!(s.PushU64(&mut mem, 5), Err(Error::SysError(SysErr::EFAULT)));
    assert_eq!(s.sp, LO + 4);
    let mut low = Stack::New(4);
    assert_eq!(low.PushU64(&mut mem, 5), Err(Error::SysError(SysErr::EFAULT)));
    let mut high = Stack::New(HI + 8);
    assert_eq!(high.PushU64(&mut mem, 5), Err(Error::SysError(SysErr::EFAULT)));
    assert!(mem.objects.is_empty());
}

#[test]
fn a_write_removes_what_it_overwrites() {
    let mut mem = UserMemory::New(LO, HI);
    mem.CopyOutObj(StackValue::Info(info(3)), 0x2000).unwrap();
    mem.CopyOutObj(StackValue::Word(1), 0x3000).unwrap();
    mem.CopyOutObj(StackValue::Word(9), 0x2040).unwrap();
    assert_eq!(mem.Find(0x2000), None);
    assert_eq!(mem.Find(0x2040), Some(StackValue::Word(9)));
    assert_eq!(mem.Find(0x3000), Some(StackValue::Word(1)));
    assert_eq!(mem.CopyInInfo(0x2000), Err(Error::SysError(SysErr::EFAULT)));
}

#[test]
fn handler_entry_builds_the_frame_below_the_red_zone() {
    let mut ts = one_group(1);
    let mut t = task(T0);
    let before = t.regs;
    assert_eq!(t.deliverSignalToHandler(&mut ts, &info(Signal::SIGUSR1), &act()), Ok(()));
    let info_addr = SP - 128 - 128;
    let ctx_addr = info_addr - 304;
    let ret_addr = ctx_addr - 8;
    let mut want = PtRegs::default();
    want.rsp = ret_addr;
    want.rip = HANDLER;
    want.rcx = HANDLER;
    want.r11 = 2;
    want.eflags = 2;
    want.rdi = Signal::SIGUSR1 as u64;
    want.rsi = info_addr;
    want.rdx = ctx_addr;
    want.rax = 0;
    assert_eq!(t.regs, want);
    assert_eq!(t.mm.Find(ret_addr), Some(StackValue::Word(RESTORER)));
    assert_eq!(t.mm.CopyInInfo(info_addr), Ok(info(Signal::SIGUSR1)));
    let uc = t.mm.CopyInContext(ctx_addr).unwrap();
    assert_eq!(uc.MContext.rsp, before.rsp);
    assert_eq!(uc.MContext.rip, before.rip);
    assert_eq!(uc.MContext.rax, 7);
    assert_eq!(uc.MContext.eflags, 0x246);
    assert_eq!(uc.MContext.oldmask, 0);
    assert_eq!(uc.MContext.cr2, 0);
    assert_eq!(uc.Flags, 2);
    // The handler runs with its own signal blocked.
    assert_eq!(T0.SignalMask(&ts).0, bit(Signal::SIGUSR1));
}

#[test]
fn handler_mask_adds_the_actions_mask_and_honours_nodefer() {
    let mut ts = one_group(1);
    T0.SetSignalMask(&mut ts, SignalSet(bit(3)));
    let mut a = act();
    a.mask = bit(5) | bit(Signal::SIGKILL);
    a.flags = SigFlag(SigFlag::SIGNAL_FLAG_NO_DEFER);
    let mut t = task(T0);
    t.deliverSignalToHandler(&mut ts, &info(Signal::SIGUSR1), &a).unwrap();
    assert_eq!(T0.SignalMask(&ts).0, bit(3) | bit(5));
}

#[test]
fn handler_entry_saves_the_saved_mask_and_uses_it_up() {
    let mut ts = one_group(1);
    T0.SetSignalMask(&mut ts, SignalSet(bit(3)));
    T0.SetSavedSignalMask(&mut ts, SignalSet(bit(7)));
    let mut t = task(T0);
    t.deliverSignalToHandler(&mut ts, &info(Signal::SIGUSR1), &act()).unwrap();
    assert!(!ts.groups[0].tasks[0].haveSavedSignalMask);
    let uc = t.mm.CopyInContext(t.regs.rdx).unwrap();
    assert_eq!(uc.MContext.oldmask, bit(7));
}

#[test]
fn fault_address_travels_in_the_context() {
    let mut ts = one_group(1);
    let mut t = task(T0);
    let mut si = info(Signal::SIGSEGV);
    si.addr = 0xdead_b000;
    t.deliverSignalToHandler(&mut ts, &si, &act()).unwrap();
    assert_eq!(t.mm.CopyInContext(t.regs.rdx).unwrap().MContext.cr2, 0xdead_b000);
}

#[test]
fn handler_runs_on_the_alternate_stack_when_asked() {
    let mut ts = one_group(1);
    let mut t = task(T0);
    t.signalStack = SignalStack { addr: 0x2_0000, flags: 0, size: 0x4000 };
    let mut a = act();
    a.flags = SigFlag(SigFlag::SIGNAL_FLAG_ON_STACK);
    t.deliverSignalToHandler(&mut ts, &info(Signal::SIGUSR1), &a).unwrap();
    assert_eq!(t.regs.rsi, 0x2_4000 - 128);
    assert_eq!(t.signalStack.flags, SignalStack::FLAG_ON_STACK);
    // The frame records the alternate stack as marked.
    assert_eq!(t.mm.CopyInContext(t.regs.rdx).unwrap().Stack, t.signalStack);
}

#[test]
fn a_task_already_on_the_alternate_stack_stays_below_its_stack_pointer() {
    let mut ts = one_group(1);
    let mut t = task(T0);
    t.signalStack = SignalStack { addr: SP - 0x1000, flags: 0, size: 0x2000 };
    let mut a = act();
    a.flags = SigFlag(SigFlag::SIGNAL_FLAG_ON_STACK);
    t.deliverSignalToHandler(&mut ts, &info(Signal::SIGUSR1), &a).unwrap();
    assert_eq!(t.regs.rsi, SP - 128 - 128);
}

#[test]
fn handler_on_the_alternate_stack_needs_no_room_below_the_stack_pointer() {
    for rsp in [0u64, 100, 127] {
        let mut ts = one_group(1);
        let mut t = task(T0);
        t.regs.rsp = rsp;
        t.signalStack = SignalStack { addr: 0x2_0000, flags: 0, size: 0x4000 };
        let mut a = act();
        a.flags = SigFlag(SigFlag::SIGNAL_FLAG_ON_STACK);
        assert_eq!(t.deliverSignalToHandler(&mut ts, &info(Signal::SIGUSR1), &a), Ok(()));
        assert_eq!(t.regs.rsi, 0x2_4000 - 128);
        assert_eq!(t.regs.rip, HANDLER);
        assert_eq!(t.regs.rdi, Signal::SIGUSR1 as u64);
        assert_eq!(t.signalStack.flags, SignalStack::FLAG_ON_STACK);
        // The context keeps the stack pointer that the task came with.
        assert_eq!(t.mm.CopyInContext(t.regs.rdx).unwrap().MContext.rsp, rsp);
        assert_eq!(T0.SignalMask(&ts).0, bit(Signal::SIGUSR1));
    }
}

#[test]
fn a_low_stack_pointer_without_a_switch_of_stacks_is_efault() {
    let mut a = act();
    a.flags = SigFlag(SigFlag::SIGNAL_FLAG_ON_STACK);

    // The alternate stack is disabled.
    let mut ts = one_group(1);
    let mut t = task(T0);
    t.regs.rsp = 100;
    let before = t.regs;
    assert_eq!(t.deliverSignalToHandler(&mut ts, &info(Signal::SIGUSR1), &a), Err(Error::SysError(SysErr::EFAULT)));
    assert_eq!(t.regs, before);
    assert_eq!(T0.SignalMask(&ts).0, 0);

    // The task runs on the alternate stack already.
    let mut t = task(T0);
    t.regs.rsp = 100;
    t.signalStack = SignalStack { addr: 0, flags: 0, size: 0x1000 };
    assert_eq!(t.deliverSignalToHandler(&mut ts, &info(Signal::SIGUSR1), &a), Err(Error::SysError(SysErr::EFAULT)));
    assert_eq!(T0.SignalMask(&ts).0, 0);

    // The action does not ask for the alternate stack.
    let mut t = task(T0);
    t.regs.rsp = 127;
    t.signalStack = SignalStack { addr: 0x2_0000, flags: 0, size: 0x4000 };
    assert_eq!(
        t.deliverSignalToHandler(&mut ts, &info(Signal::SIGUSR1), &act()),
        Err(Error::SysError(SysErr::EFAULT))
    );
    assert_eq!(T0.SignalMask(&ts).0, 0);
}

#[test]
fn a_disabled_alternate_stack_is_not_used() {
    let mut ts = one_group(1);
    let mut t = task(T0);
    let mut a = act();
    a.flags = SigFlag(SigFlag::SIGNAL_FLAG_ON_STACK);
    t.deliverSignalToHandler(&mut ts, &info(Signal::SIGUSR1), &a).unwrap();
    assert_eq!(t.regs.rsi, SP - 128 - 128);
    assert_eq!(t.signalStack.flags, SignalStack::FLAG_DISABLE);
}

#[test]
fn handler_entry_fails_with_efault_where_the_frame_does_not_fit() {
    let mut ts = one_group(1);
    let mut t = task(T0);
    t.regs.rsp = 100;
    let before = t.regs;
    assert_eq!(
        t.deliverSignalToHandler(&mut ts, &info(Signal::SIGUSR1), &act()),
        Err(Error::SysError(SysErr::EFAULT))
    );
    assert_eq!(t.regs, before);
    assert_eq!(T0.SignalMask(&ts).0, 0);

    // Room for the siginfo, none for the context.
    let mut t = task(T0);
    t.regs.rsp = LO + 128 + 128 + 100;
    let before = t.regs;
    assert_eq!(
        t.deliverSignalToHandler(&mut ts, &info(Signal::SIGUSR1), &act()),
        Err(Error::SysError(SysErr::EFAULT))
    );
    assert_eq!(t.regs, before);
    assert_eq!(t.mm.CopyInInfo(LO + 100), Ok(info(Signal::SIGUSR1)));
    assert_eq!(T0.SignalMask(&ts).0, bit(Signal::SIGUSR1));
}

#[test]
fn signal_return_undoes_the_handler_entry() {
    let mut ts = one_group(1);
    T0.SetSignalMask(&mut ts, SignalSet(bit(3)));
    let mut t = task(T0);
    let before = t.regs;
    let stack_before = t.signalStack;
    t.deliverSignalToHandler(&mut ts, &info(Signal::SIGUSR1), &act()).unwrap();
    // The handler returns through the restorer, which pops its address,
    // with registers and flags of its own.
    t.regs.rsp += 8;
    t.regs.rax = 0xffff;
    t.regs.rbx = 0;
    t.regs.eflags = 0x20_0ad7;
    let r = t.SignalReturn(&mut ts, true);
    assert_eq!(r, Err(Error::SysCallRetCtrl(TaskRunState::RunApp)));
    assert_eq!(T0.SignalMask(&ts).0, bit(3));
    assert_eq!(t.signalStack, stack_before);
    assert_eq!(t.regs.rsp, before.rsp);
    assert_eq!(t.regs.rip, before.rip);
    assert_eq!(t.regs.rax, before.rax);
    assert_eq!(t.regs.rbx, before.rbx);
    assert_eq!(t.regs.r15, before.r15);
    assert_eq!(t.regs.orig_rax, u64::MAX);
    let keep = EflagsDef::EFLAGS_RESTOREABLE;
    assert_eq!(t.regs.eflags & keep, before.eflags & keep);
    assert_eq!(t.regs.eflags & !keep, 0x20_0ad7 & !keep);
    assert_eq!(t.regs.eflags, 0x20_0246);
}

#[test]
fn signal_return_strips_kill_and_stop_from_the_mask() {
    let mut ts = one_group(1);
    T0.SetSavedSignalMask(&mut ts, SignalSet(u64::MAX));
    let mut t = task(T0);
    t.deliverSignalToHandler(&mut ts, &info(Signal::SIGUSR1), &act()).unwrap();
    t.regs.rsp += 8;
    t.SignalReturn(&mut ts, false).unwrap_err();
    assert_eq!(T0.SignalMask(&ts).0, u64::MAX & !UNMASKABLE_MASK);
}

#[test]
fn signal_return_without_a_frame_is_efault() {
    let mut ts = one_group(1);
    let mut t = task(T0);
    let before = t.regs;
    assert_eq!(t.SignalReturn(&mut ts, false), Err(Error::SysError(SysErr::EFAULT)));
    assert_eq!(t.regs, before);
}

#[test]
fn signal_return_interrupts_the_thread_for_a_waiting_signal() {
    let mut ts = one_group(1);
    let mut t = task(T0);
    t.deliverSignalToHandler(&mut ts, &info(Signal::SIGUSR1), &act()).unwrap();
    // Blocked while the handler runs.
    T0.SendSignal(&mut ts, &info(Signal::SIGUSR1)).unwrap();
    assert!(!ts.groups[0].tasks[0].interruptPending);
    t.regs.rsp += 8;
    t.SignalReturn(&mut ts, false).unwrap_err();
    assert!(ts.groups[0].tasks[0].interruptPending);
}

#[test]
fn restart_errnos_are_recognised() {
    assert_eq!(SyscallRestartErrnoFromReturn((-512i64) as u64), (SysErr::ERESTARTSYS, true));
    assert_eq!(SyscallRestartErrnoFromReturn((-513i64) as u64), (SysErr::ERESTARTNOINTR, true));
    assert_eq!(SyscallRestartErrnoFromReturn((-514i64) as u64), (SysErr::ERESTARTNOHAND, true));
    assert_eq!(SyscallRestartErrnoFromReturn((-516i64) as u64), (SysErr::ERESTART_RESTARTBLOCK, true));
    assert_eq!(SyscallRestartErrnoFromReturn((-515i64) as u64), (0, false));
    assert_eq!(SyscallRestartErrnoFromReturn(0), (0, false));
    assert_eq!(SyscallRestartErrnoFromReturn((-4i64) as u64), (0, false));
}

fn deliver_after_syscall(ret: i64, flags: u64) -> Task {
    let mut ts = one_group(1);
    let mut t = task(T0);
    t.haveSyscallReturn = true;
    t.regs.rax = ret as u64;
    t.regs.orig_rax = 35;
    t.regs.rip = 0x40_0502;
    t.regs.rsp = 100;
    let mut a = act();
    a.flags = SigFlag(flags);
    // The frame does not fit, so the registers show the settled call.
    t.ThreadDeliverSignal(&mut ts, &info(Signal::SIGUSR1), &a);
    t
}

#[test]
fn interrupted_call_without_restart_returns_eintr() {
    assert_eq!(deliver_after_syscall(-514, SigFlag::SIGNAL_FLAG_RESTART).regs.rax, (-4i64) as u64);
    assert_eq!(deliver_after_syscall(-512, 0).regs.rax, (-4i64) as u64);
    assert_eq!(deliver_after_syscall(-516, 0).regs.rax, (-4i64) as u64);
}

#[test]
fn interrupted_call_with_restart_is_entered_again() {
    let t = deliver_after_syscall(-512, SigFlag::SIGNAL_FLAG_RESTART);
    assert_eq!(t.regs.rax, 35);
    assert_eq!(t.regs.rip, 0x40_0500);
    let t = deliver_after_syscall(-513, 0);
    assert_eq!(t.regs.rax, 35);
    assert_eq!(t.regs.rip, 0x40_0500);
    let t = deliver_after_syscall(-516, SigFlag::SIGNAL_FLAG_RESTART);
    assert_eq!(t.regs.rax, 219);
    assert_eq!(t.regs.rip, 0x40_0500);
}

#[test]
fn a_signal_without_handler_leaves_the_call_alone() {
    let mut ts = one_group(1);
    let mut t = task(T0);
    t.haveSyscallReturn = true;
    t.regs.rax = (-512i64) as u64;
    let ignore = SigAct { handler: 1, flags: SigFlag(0), restorer: 0, mask: 0 };
    assert_eq!(t.ThreadDeliverSignal(&mut ts, &info(Signal::SIGUSR1), &ignore), TaskRunState::RunInterrupt);
    assert_eq!(t.regs.rax, (-512i64) as u64);
}

#[test]
fn terminating_signal_begins_a_group_exit() {
    let mut ts = one_group(2);
    let mut t = task(T0);
    let dfl = SigAct { handler: 0, flags: SigFlag(0), restorer: 0, mask: 0 };
    assert_eq!(t.ThreadDeliverSignal(&mut ts, &info(Signal::SIGTERM), &dfl), TaskRunState::RunExit);
    assert!(ts.groups[0].exiting);
    assert_eq!(ts.groups[0].exitStatus.Signo, Signal::SIGTERM);
    assert_eq!(ts.groups[0].tasks[0].exitStatus.Signo, Signal::SIGTERM);
    assert!(!ts.groups[0].tasks[0].killedLocked());
    assert!(ts.groups[0].tasks[1].killedLocked());
    // A second exit takes the status of the first.
    let mut t1 = task(T1);
    assert_eq!(t1.ThreadDeliverSignal(&mut ts, &info(Signal::SIGSEGV), &dfl), TaskRunState::RunExit);
    assert_eq!(ts.groups[0].exitStatus.Signo, Signal::SIGTERM);
    assert_eq!(ts.groups[0].tasks[1].exitStatus.Signo, Signal::SIGTERM);
}

#[test]
fn handled_signal_returns_to_the_syscall_exit_path() {
    let mut ts = one_group(1);
    let mut t = task(T0);
    assert_eq!(t.ThreadDeliverSignal(&mut ts, &info(Signal::SIGUSR1), &act()), TaskRunState::RunSyscallRet);
    assert_eq!(t.regs.rip, HANDLER);
}

#[test]
fn failed_handler_entry_is_demoted_to_sigsegv() {
    let mut ts = one_group(1);
    ThreadGroup(0).SetSignalAct(&mut ts, Signal(Signal::SIGSEGV), &Some(SigAct {
        handler: 1,
        flags: SigFlag(0),
        restorer: 0,
        mask: 0,
    }))
    .unwrap();
    let mut t = task(T0);
    t.regs.rsp = 64;
    assert_eq!(t.ThreadDeliverSignal(&mut ts, &info(Signal::SIGUSR1), &act()), TaskRunState::RunInterrupt);
    assert_eq!(ts.groups[0].signalHandlers.GetAct(Signal(Signal::SIGSEGV)).handler, 0);
    assert_eq!(T0.PendingSignals(&ts).0, bit(Signal::SIGSEGV));
    assert!(ts.groups[0].tasks[0].interruptPending);
}

#[test]
fn run_interrupt_without_anything_pending_resumes_the_program() {
    let mut ts = one_group(1);
    let mut t = task(T0);
    assert_eq!(t.RunInterrupt(&mut ts), TaskRunState::RunApp);
}

#[test]
fn run_interrupt_delivers_the_lowest_unblocked_signal() {
    let mut ts = one_group(1);
    ThreadGroup(0).SetSignalAct(&mut ts, Signal(Signal::SIGUSR1), &Some(act())).unwrap();
    ThreadGroup(0).SetSignalAct(&mut ts, Signal(Signal::SIGUSR2), &Some(act())).unwrap();
    T0.SendSignal(&mut ts, &info(Signal::SIGUSR2)).unwrap();
    T0.SendGroupSignal(&mut ts, &info(Signal::SIGUSR1)).unwrap();
    let mut t = task(T0);
    // The thread's own queue comes first.
    assert_eq!(t.RunInterrupt(&mut ts), TaskRunState::RunSyscallRet);
    assert_eq!(t.regs.rdi, Signal::SIGUSR2 as u64);
    assert_eq!(T0.PendingSignals(&ts).0, bit(Signal::SIGUSR1));
}

#[test]
fn reset_handler_action_is_used_once() {
    let mut ts = one_group(1);
    let mut a = act();
    a.flags = SigFlag(SigFlag::SIGNAL_FLAG_RESET_HANDLER);
    ThreadGroup(0).SetSignalAct(&mut ts, Signal(Signal::SIGUSR1), &Some(a)).unwrap();
    T0.SendSignal(&mut ts, &info(Signal::SIGUSR1)).unwrap();
    let mut t = task(T0);
    assert_eq!(t.RunInterrupt(&mut ts), TaskRunState::RunSyscallRet);
    assert_eq!(ts.groups[0].signalHandlers.GetAct(Signal(Signal::SIGUSR1)).handler, 0);
}

fn parent_and_child(child_threads: usize) -> TaskSet {
    let mut parent = ThreadGroupInternal::New();
    parent.AddThread(ThreadInternal::New(1, 0, None));
    let mut child = ThreadGroupInternal::New();
    for i in 0..child_threads {
        child.AddThread(ThreadInternal::New(42 + i as i32, 500, Some(Thread { tg: 0, idx: 0 })));
    }
    let mut ts = TaskSet { groups: vec![parent, child] };
    ThreadGroup(0).SetSignalAct(&mut ts, Signal(Signal::SIGCHLD), &Some(act())).unwrap();
    ts.groups[0].eventQueue.EventRegister(&WaitEntry::New(1), EVENT_CHILD_GROUP_STOP | EVENT_GROUP_CONTINUE);
    ts
}

#[test]
fn group_stop_then_continue() {
    let mut ts = parent_and_child(2);
    let c0 = Thread { tg: 1, idx: 0 };
    let c1 = Thread { tg: 1, idx: 1 };
    let mut task0 = task(c0);
    let mut task1 = task(c1);

    assert_eq!(ThreadGroup(1).SendSignal(&mut ts, &info(Signal::SIGSTOP)), Ok(()));
    assert!(ts.groups[1].tasks[0].interruptPending);

    // The first thread takes the signal and begins the stop.
    assert_eq!(task0.RunInterrupt(&mut ts), TaskRunState::RunInterrupt);
    assert!(ts.groups[1].groupStop.groupStopDequeued);
    assert_eq!(ts.groups[1].groupStop.groupStopPendingCount, 2);
    assert_eq!(ts.groups[1].groupStop.groupStopSignal, Signal(Signal::SIGSTOP));
    assert!(ts.groups[1].tasks[1].interruptPending);

    // Both threads join it.
    assert_eq!(task0.RunInterrupt(&mut ts), TaskRunState::RunInterrupt);
    assert_eq!(ts.groups[1].tasks[0].stop.unwrap().Type, TaskStopType::GROUPSTOP);
    assert_eq!(ts.groups[1].groupStop.groupStopPendingCount, 1);
    assert!(!ts.groups[1].groupStop.groupStopComplete);
    assert_eq!(ts.groups[0].pendingSignals.pendingSet.0, 0);

    assert_eq!(task1.RunInterrupt(&mut ts), TaskRunState::RunInterrupt);
    assert!(ts.groups[1].tasks[1].stop.is_some());
    assert!(ts.groups[1].groupStop.groupStopComplete);
    assert_eq!(ts.groups[1].groupStop.groupStopPendingCount, 0);

    // The parent hears of the completed stop.
    let got = ts.groups[0].dequeueLocked(0, SignalSet(0)).unwrap();
    assert_eq!(got.Signo, Signal::SIGCHLD);
    assert_eq!(got.Code, SignalInfo::CLD_STOPPED);
    assert_eq!(got.pid, 42);
    assert_eq!(got.uid, 500);
    assert_eq!(got.status, Signal::SIGSTOP);
    assert_eq!(ts.groups[0].eventQueue.entries[0].triggered, EVENT_CHILD_GROUP_STOP);

    // SIGCONT ends the stop; a continuing thread announces it.
    assert_eq!(ThreadGroup(1).SendSignal(&mut ts, &info(Signal::SIGCONT)), Ok(()));
    assert!(ts.groups[1].tasks[0].stop.is_none());
    assert!(ts.groups[1].tasks[1].stop.is_none());
    assert!(ts.groups[1].groupStop.groupContNotify);
    assert!(!ts.groups[1].groupStop.groupContInterrupted);
    assert!(!ts.groups[1].groupStop.groupStopComplete);
    assert!(!ts.groups[1].groupStop.groupStopDequeued);
    assert_eq!(ts.groups[1].pendingSignals.pendingSet.0, 0);

    assert_eq!(task0.RunInterrupt(&mut ts), TaskRunState::RunInterrupt);
    assert!(!ts.groups[1].groupStop.groupContNotify);
    let got = ts.groups[0].dequeueLocked(0, SignalSet(0)).unwrap();
    assert_eq!(got.Code, SignalInfo::CLD_CONTINUED);
    assert_eq!(got.pid, 42);
    assert_eq!(
        ts.groups[0].eventQueue.entries[0].triggered,
        EVENT_CHILD_GROUP_STOP | EVENT_GROUP_CONTINUE
    );
}

#[test]
fn a_continue_that_cuts_a_stop_short_is_announced_as_a_stop() {
    let mut ts = parent_and_child(2);
    let c0 = Thread { tg: 1, idx: 0 };
    let mut task0 = task(c0);
    ThreadGroup(1).SendSignal(&mut ts, &info(Signal::SIGSTOP)).unwrap();
    task0.RunInterrupt(&mut ts);
    ThreadGroup(1).SendSignal(&mut ts, &info(Signal::SIGCONT)).unwrap();
    assert!(ts.groups[1].groupStop.groupContInterrupted);
    assert_eq!(task0.RunInterrupt(&mut ts), TaskRunState::RunInterrupt);
    let got = ts.groups[0].dequeueLocked(0, SignalSet(0)).unwrap();
    assert_eq!(got.Code, SignalInfo::CLD_STOPPED);
    assert_eq!(
        ts.groups[0].eventQueue.entries[0].triggered,
        EVENT_CHILD_GROUP_STOP | EVENT_GROUP_CONTINUE
    );
}

#[test]
fn a_killed_thread_joins_the_stop_without_stopping() {
    let mut ts = one_group(2);
    ts.groups[0].groupStop.groupStopDequeued = true;
    T0.initiateGroupStop(&mut ts, &info(Signal::SIGTSTP));
    ts.groups[0].tasks[1].killLocked();
    let mut t1 = task(T1);
    assert_eq!(t1.RunInterrupt(&mut ts), TaskRunState::RunInterrupt);
    assert!(ts.groups[0].tasks[1].stop.is_none());
    assert!(ts.groups[0].tasks[1].groupStopAcknowledged);
    assert_eq!(ts.groups[0].groupStop.groupStopPendingCount, 1);
}
