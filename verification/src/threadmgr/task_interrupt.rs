//! What a task does when it is interrupted: announce a stop or a continue
//! of its group, join a group stop, or take a signal and deliver it.

use vstd::prelude::*;
use crate::kernel::waiter::NotifyAll;
use crate::qlib::common::Error;
use crate::qlib::common::SysErr;
use crate::qlib::common::TaskRunState;
use crate::qlib::linux_def::Bit;
use crate::qlib::linux_def::EflagsDef;
use crate::qlib::linux_def::EventMask;
use crate::qlib::linux_def::ExitStatus;
use crate::qlib::linux_def::PtRegs;
use crate::qlib::linux_def::STOP_MASK;
use crate::qlib::linux_def::SigAct;
use crate::qlib::linux_def::SigFlag;
use crate::qlib::linux_def::Signal;
use crate::qlib::linux_def::SignalInfo;
use crate::qlib::linux_def::SignalInfoPriv;
use crate::qlib::linux_def::SignalSet;
use crate::qlib::linux_def::SignalStack;
use crate::qlib::linux_def::UContext;
use crate::qlib::linux_def::UNMASKABLE_MASK;
use crate::stack::MemView;
use crate::stack::Stack;
use crate::stack::StackValue;
use crate::stack::lemma_read_elsewhere;
use crate::stack::lemma_read_written;
use crate::task::BeforeSyscall;
use crate::task::SYS_RESTART_SYSCALL;
use crate::task::Task;
use crate::task::TaskView;
use crate::threadmgr::task_exit::TaskExitState;
use crate::threadmgr::task_signals::ActionOf;
use crate::threadmgr::task_signals::AfterParticipation;
use crate::threadmgr::task_signals::CompletesStop;
use crate::threadmgr::task_signals::ComputeAction;
use crate::threadmgr::task_signals::SameTasks;
use crate::threadmgr::task_signals::SignalAction;
use crate::threadmgr::task_signals::StopSignals;
use crate::threadmgr::task_signals::lemma_same_tasks_trans;
use crate::threadmgr::task_signals::lemma_stop_mask;
use crate::threadmgr::task_signals::lemma_taskset_update;
use crate::threadmgr::task_stop::StopInForce;
use crate::threadmgr::task_stop::TaskStop;
use crate::threadmgr::task_stop::TaskStopType;
use crate::threadmgr::task_syscall::RestartErrno;
use crate::threadmgr::task_syscall::SyscallRestartErrnoFromReturn;
use crate::threadmgr::thread::KillInfo;
use crate::threadmgr::thread::Thread;
use crate::threadmgr::thread::ThreadView;
use crate::threadmgr::thread_group::ActOf;
use crate::threadmgr::thread_group::AfterDequeAct;
use crate::threadmgr::thread_group::EVENT_CHILD_GROUP_STOP;
use crate::threadmgr::thread_group::EVENT_GROUP_CONTINUE;
use crate::threadmgr::thread_group::GroupStopState;
use crate::threadmgr::thread_group::HasThread;
use crate::threadmgr::thread_group::TaskSet;
use crate::threadmgr::thread_group::TaskSetWf;
use crate::threadmgr::thread_group::ThreadGroupInternal;
use crate::threadmgr::thread_group::ThreadGroupView;
use crate::threadmgr::thread_group::lemma_counts_bounded;
use crate::threadmgr::thread_group::lemma_counts_update;

verus! {

/// The stop that holds the threads of a group which a stop signal has
/// stopped.
pub struct GroupStop {}

impl TaskStop for GroupStop {
    open spec fn kind(&self) -> TaskStopType {
        TaskStopType::GROUPSTOP
    }

    open spec fn killable(&self) -> bool {
        true
    }

    fn Type(&self) -> (r: TaskStopType) {
        TaskStopType::GROUPSTOP
    }

    fn Killable(&self) -> (r: bool) {
        true
    }
}

impl ThreadGroupView {
    /// The group after thread `idx` has begun a group exit with status
    /// `es`. If the group exits already, or runs an `execve`, the thread
    /// takes the group's status; else the group exits with `es`, and every
    /// other thread is killed.
    pub open spec fn prepareGroupExit(self, idx: int, es: ExitStatus) -> ThreadGroupView {
        if self.exiting || self.execing {
            self.withTask(idx, ThreadView { exitStatus: self.exitStatus, ..self.tasks[idx] })
        } else {
            ThreadGroupView {
                exiting: true,
                exitStatus: es,
                tasks: Seq::new(
                    self.tasks.len(),
                    |j: int|
                        if j == idx {
                            ThreadView { exitStatus: es, ..self.tasks[j] }
                        } else {
                            self.tasks[j].kill()
                        },
                ),
                ..self
            }
        }
    }

    /// `prepareGroupExit` keeps the group well formed and its threads the
    /// same.
    pub proof fn lemma_prepare_group_exit_wf(self, idx: int, es: ExitStatus)
        requires
            self.wf(),
            0 <= idx < self.tasks.len(),
        ensures
            self.prepareGroupExit(idx, es).wf(),
            self.sameThreads(self.prepareGroupExit(idx, es)),
    {
        let n = self.prepareGroupExit(idx, es);
        assert(self.tasks[idx].wf());
        if self.exiting || self.execing {
            self.lemma_with_task(idx, ThreadView { exitStatus: self.exitStatus, ..self.tasks[idx] });
        } else {
            assert forall|i: int| 0 <= i < n.tasks.len() implies (#[trigger] n.tasks[i]).wf() by {
                assert(self.tasks[i].wf());
                self.tasks[i].pendingSignals.lemma_enque_wf(KillInfo(), None);
            }
            self.lemma_same_flags_wf(n);
        }
    }

    /// The group with `events` notified to the waiters on its event queue.
    pub open spec fn notifyEvents(self, events: EventMask) -> ThreadGroupView {
        ThreadGroupView { eventQueue: NotifyAll(self.eventQueue, events), ..self }
    }
}

impl ThreadGroupInternal {
    /// Begins a group exit with status `es` on behalf of thread `idx`.
    pub fn prepareGroupExitLocked(&mut self, idx: usize, es: ExitStatus)
        requires
            old(self)@.wf(),
            idx < old(self)@.tasks.len(),
        ensures
            final(self)@ == old(self)@.prepareGroupExit(idx as int, es),
            final(self)@.wf(),
            old(self)@.sameThreads(final(self)@),
    {
        proof {
            old(self)@.lemma_prepare_group_exit_wf(idx as int, es);
        }
        if self.exiting || self.execing {
            self.tasks[idx].exitStatus = self.exitStatus;
            assert(self@.tasks =~= old(self)@.prepareGroupExit(idx as int, es).tasks);
            return ;
        }
        self.exiting = true;
        self.exitStatus = es;
        let n = self.tasks.len();
        let mut i: usize = 0;
        while i < n
            invariant
                i <= n,
                idx < n,
                n == self.tasks@.len(),
                n == old(self).tasks@.len(),
                old(self)@.wf(),
                self@ == (ThreadGroupView { tasks: self@.tasks, exiting: true, exitStatus: es, ..old(self)@ }),
                forall|j: int| 0 <= j < i ==> self@.tasks[j] == old(self)@.prepareGroupExit(idx as int, es).tasks[j],
                forall|j: int| i <= j < n ==> self@.tasks[j] == old(self)@.tasks[j],
                !old(self)@.exiting && !old(self)@.execing,
            decreases n - i,
        {
            let ghost prev = self@.tasks;
            assert(prev[i as int] == old(self)@.tasks[i as int]);
            assert(old(self)@.tasks[i as int].wf());
            if i == idx {
                self.tasks[i].exitStatus = es;
            } else {
                self.tasks[i].killLocked();
            }
            assert(self@.tasks =~= prev.update(i as int, old(self)@.prepareGroupExit(idx as int, es).tasks[i as int]));
            i = i + 1;
        }
        assert(self@.tasks =~= old(self)@.prepareGroupExit(idx as int, es).tasks);
    }
}

impl Thread {
    /// Begins a group exit with status `es`, unless the group exits
    /// already.
    pub fn PrepareGroupExit(&self, ts: &mut TaskSet, es: ExitStatus)
        requires
            TaskSetWf(old(ts)@),
            HasThread(old(ts)@, *self),
        ensures
            final(ts)@ == old(ts)@.update(
                self.tg as int,
                old(ts)@[self.tg as int].prepareGroupExit(self.idx as int, es),
            ),
            TaskSetWf(final(ts)@),
            SameTasks(old(ts)@, final(ts)@),
    {
        let tg = ts.Lock(self.tg);
        tg.prepareGroupExitLocked(self.idx, es);
        proof {
            lemma_taskset_update(old(ts)@, self.tg as int, ts@[self.tg as int]);
        }
    }
}

/// Where the parts of a signal frame stand on the user stack.
pub struct Frame {
    /// Address of the `siginfo_t`.
    pub info: u64,
    /// Address of the `ucontext_t`.
    pub ctx: u64,
    /// Address of the word that holds the restorer's address; the stack
    /// pointer on entry to the handler.
    pub ret: u64,
}

/// User memory after an attempt to push a signal frame below `base`, and
/// the frame if all of it could be pushed. What was pushed before a part
/// failed stays written.
pub open spec fn PushFrame(mm: MemView, base: u64, info: SignalInfo, ctx: UContext, restorer: u64) -> (MemView, Option<Frame>) {
    if !(Stack { sp: base }).canPush(mm, StackValue::Info(info)) {
        (mm, None)
    } else {
        let a1 = (base - 128) as u64;
        let mm1 = mm.written(a1, StackValue::Info(info));
        if !(Stack { sp: a1 }).canPush(mm1, StackValue::Context(ctx)) {
            (mm1, None)
        } else {
            let a2 = (a1 - 304) as u64;
            let mm2 = mm1.written(a2, StackValue::Context(ctx));
            if !(Stack { sp: a2 }).canPush(mm2, StackValue::Word(restorer)) {
                (mm2, None)
            } else {
                let a3 = (a2 - 8) as u64;
                (mm2.written(a3, StackValue::Word(restorer)), Some(Frame { info: a1, ctx: a2, ret: a3 }))
            }
        }
    }
}

/// The registers on entry to a signal handler.
pub open spec fn HandlerRegs(signo: i32, act: SigAct, f: Frame) -> PtRegs {
    PtRegs {
        rsp: f.ret,
        rcx: act.handler,
        r11: 2,
        rdi: signo as u64,
        rsi: f.info,
        rdx: f.ctx,
        rax: 0,
        rip: act.handler,
        eflags: 2,
        ..PtRegs::zero()
    }
}

/// The mask that runs while the handler of `signo` does: the thread's own,
/// the action's, and the signal itself unless the action has `SA_NODEFER`.
pub open spec fn HandlerMask(own: SignalSet, signo: int, act: SigAct) -> SignalSet {
    if act.flags.0 & SigFlag::SIGNAL_FLAG_NO_DEFER != 0 {
        SignalSet(own.0 | act.mask)
    } else {
        SignalSet((own.0 | act.mask) | Bit((signo - 1) as u64))
    }
}

impl ThreadView {
    /// The mask that the handler's return puts back: the saved one if the
    /// thread has one, else the one in force.
    pub open spec fn maskToRestore(self) -> SignalSet {
        if self.haveSavedSignalMask {
            self.savedSignalMask
        } else {
            self.signalMask
        }
    }
}

impl TaskView {
    /// Whether the handler of `act` runs on the alternate stack: the action
    /// asks for it and the task has one.
    pub open spec fn usesAltStack(self, act: SigAct) -> bool {
        act.flags.0 & SigFlag::SIGNAL_FLAG_ON_STACK != 0 && self.signalStack.flags & SignalStack::FLAG_DISABLE == 0
    }

    /// The alternate stack as the signal frame records it: marked as in
    /// use if the handler runs on it.
    pub open spec fn stackAtEntry(self, act: SigAct) -> SignalStack {
        if self.usesAltStack(act) {
            SignalStack { flags: self.signalStack.flags | SignalStack::FLAG_ON_STACK, ..self.signalStack }
        } else {
            self.signalStack
        }
    }

    /// Whether the handler of `act` starts at the top of the alternate
    /// stack: it runs on that stack, and the task is not on it already.
    pub open spec fn switchesStack(self, act: SigAct) -> bool {
        self.usesAltStack(act) && !self.stackAtEntry(act).contains(self.regs.rsp)
    }

    /// Whether there is no place for the frame: it would go below the
    /// stack pointer, past the red zone of 128 bytes, and the stack pointer
    /// is below 128.
    pub open spec fn noRoomForFrame(self, act: SigAct) -> bool {
        !self.switchesStack(act) && self.regs.rsp < 128
    }

    /// The address below which the signal frame is pushed: the top of the
    /// alternate stack if the handler starts there, else 128 bytes below
    /// the stack pointer, past the red zone.
    pub open spec fn frameBase(self, act: SigAct) -> u64 {
        if self.switchesStack(act) {
            self.stackAtEntry(act).top()
        } else {
            (self.regs.rsp - 128) as u64
        }
    }

    /// The `ucontext_t` of the frame for `info`: the registers at the
    /// interruption, the mask to put back, the faulting address for
    /// `SIGBUS` and `SIGSEGV`, and the alternate stack.
    pub open spec fn frameContext(self, restore: SignalSet, info: SignalInfo, act: SigAct) -> UContext {
        UContext::of(
            self.regs,
            restore.0,
            if info.Signo == Signal::SIGBUS || info.Signo == Signal::SIGSEGV {
                info.addr
            } else {
                0
            },
            0,
            self.stackAtEntry(act),
        )
    }

    /// The task after `deliverSignalToHandler`, where `t` is its thread
    /// before.
    ///
    /// Without a place for the frame nothing changes. Else the alternate
    /// stack is marked if it is used, the frame is pushed as far as it
    /// goes, and if all of it is pushed the registers are those of the
    /// handler's entry.
    pub open spec fn enterHandler(self, t: ThreadView, info: SignalInfo, act: SigAct) -> TaskView {
        if self.noRoomForFrame(act) {
            self
        } else {
            let ctx = self.frameContext(t.maskToRestore(), info, act);
            let pushed = PushFrame(self.mm, self.frameBase(act), info, ctx, act.restorer);
            TaskView {
                signalStack: self.stackAtEntry(act),
                mm: pushed.0,
                regs: match pushed.1 {
                    Some(f) => HandlerRegs(info.Signo, act, f),
                    None => self.regs,
                },
                ..self
            }
        }
    }

    /// What `deliverSignalToHandler` returns: `EFAULT` if there is no
    /// place for the frame or a part of it cannot be pushed.
    pub open spec fn enterHandlerResult(self, t: ThreadView, info: SignalInfo, act: SigAct) -> Result<(), Error> {
        if self.noRoomForFrame(act) {
            Err(Error::SysError(SysErr::EFAULT))
        } else {
            let ctx = self.frameContext(t.maskToRestore(), info, act);
            match PushFrame(self.mm, self.frameBase(act), info, ctx, act.restorer).1 {
                Some(_) => Ok(()),
                None => Err(Error::SysError(SysErr::EFAULT)),
            }
        }
    }

    /// The registers after a return from a signal handler whose frame
    /// holds `uc`: those of the interrupted context, with the flags that a
    /// handler may not set left as they are now, and no system call in
    /// progress.
    pub open spec fn regsAfterReturn(self, uc: UContext) -> PtRegs {
        PtRegs {
            eflags: (self.regs.eflags & !EflagsDef::EFLAGS_RESTOREABLE) | (uc.MContext.eflags
                & EflagsDef::EFLAGS_RESTOREABLE),
            orig_rax: u64::MAX,
            ..self.regs.restored(uc.MContext)
        }
    }

    /// The frame that stands at the stack pointer, if a whole one does: a
    /// `ucontext_t`, and a `siginfo_t` right above it.
    pub open spec fn frameAtSp(self) -> Option<UContext> {
        match self.mm.contextAt(self.regs.rsp) {
            Some(uc) => if self.mm.infoAt((self.regs.rsp + 304) as u64) is Some {
                Some(uc)
            } else {
                None
            },
            None => None,
        }
    }

    /// The task after `SignalReturn`: unchanged without a frame at the
    /// stack pointer; else the alternate stack and the registers are those
    /// that the frame holds.
    pub open spec fn signalReturn(self) -> TaskView {
        match self.frameAtSp() {
            Some(uc) => TaskView { signalStack: uc.Stack, regs: self.regsAfterReturn(uc), ..self },
            None => self,
        }
    }
}

impl ThreadGroupView {
    /// The group of thread `idx` after `deliverSignalToHandler` where the
    /// frame has a place: a saved mask is used up, and the handler's mask
    /// is in force.
    pub open spec fn enterHandler(self, idx: int, signo: int, act: SigAct) -> ThreadGroupView {
        let t = self.tasks[idx];
        self.withTask(idx, ThreadView { haveSavedSignalMask: false, ..t }).setSignalMask(
            idx,
            HandlerMask(t.signalMask, signo, act),
        )
    }

    /// The group of thread `idx` after `SignalReturn` from a frame that
    /// holds `uc`: the mask of the frame is in force, and the thread has
    /// interrupted itself if a signal waits that the mask lets through.
    pub open spec fn signalReturn(self, idx: int, uc: UContext) -> ThreadGroupView {
        let g = self.setSignalMask(idx, SignalSet(uc.MContext.oldmask & !UNMASKABLE_MASK));
        if g.tasks[idx].hasSignal(g.pendingSignals) {
            g.withTask(idx, g.tasks[idx].interrupt())
        } else {
            g
        }
    }

    /// `enterHandler` keeps the group well formed and its threads the
    /// same; of thread `idx` it changes the mask and the interrupt only,
    /// and uses up the saved mask.
    pub proof fn lemma_enter_handler_wf(self, idx: int, signo: int, act: SigAct)
        requires
            self.wf(),
            0 <= idx < self.tasks.len(),
        ensures
            self.enterHandler(idx, signo, act).wf(),
            self.sameThreads(self.enterHandler(idx, signo, act)),
            self.enterHandler(idx, signo, act).tasks[idx].exitState == self.tasks[idx].exitState,
            self.enterHandler(idx, signo, act).tasks[idx].signalMask == SignalSet(
                HandlerMask(self.tasks[idx].signalMask, signo, act).0 & !UNMASKABLE_MASK,
            ),
    {
        let t = self.tasks[idx];
        assert(t.wf());
        let t1 = ThreadView { haveSavedSignalMask: false, ..t };
        self.lemma_with_task(idx, t1);
        let g1 = self.withTask(idx, t1);
        g1.lemma_set_signal_mask_wf(idx, HandlerMask(t.signalMask, signo, act));
        self.lemma_same_threads_trans(g1, self.enterHandler(idx, signo, act));
    }

    /// `signalReturn` keeps the group well formed and its threads the
    /// same, and puts the mask of the frame in force.
    pub proof fn lemma_signal_return_wf(self, idx: int, uc: UContext)
        requires
            self.wf(),
            0 <= idx < self.tasks.len(),
        ensures
            self.signalReturn(idx, uc).wf(),
            self.sameThreads(self.signalReturn(idx, uc)),
            self.signalReturn(idx, uc).tasks[idx].signalMask == SignalSet(uc.MContext.oldmask & !UNMASKABLE_MASK),
    {
        let t = self.tasks[idx];
        assert(t.wf());
        let m = SignalSet(uc.MContext.oldmask & !UNMASKABLE_MASK);
        let mv = uc.MContext.oldmask;
        assert((mv & !0x40100u64) & !0x40100u64 == mv & !0x40100u64) by (bit_vector);
        self.lemma_set_signal_mask_wf(idx, m);
        let g = self.setSignalMask(idx, m);
        assert(g.tasks[idx].wf());
        g.lemma_with_task(idx, g.tasks[idx].interrupt());
        self.lemma_same_threads_trans(g, g.withTask(idx, g.tasks[idx].interrupt()));
    }
}

impl ThreadGroupInternal {
    /// Uses up the saved mask of thread `idx` and puts the handler's mask
    /// in force; returns the mask that the handler's return puts back.
    fn enterHandlerLocked(&mut self, idx: usize, sig: Signal, act: &SigAct) -> (r: SignalSet)
        requires
            old(self)@.wf(),
            idx < old(self)@.tasks.len(),
            sig.valid(),
        ensures
            r == old(self)@.tasks[idx as int].maskToRestore(),
            final(self)@ == old(self)@.enterHandler(idx as int, sig.0 as int, *act),
            final(self)@.wf(),
            old(self)@.sameThreads(final(self)@),
    {
        let ghost g0 = self@;
        let ghost t = g0.tasks[idx as int];
        proof {
            g0.lemma_enter_handler_wf(idx as int, sig.0 as int, *act);
            assert(t.wf());
            g0.lemma_with_task(idx as int, ThreadView { haveSavedSignalMask: false, ..t });
        }
        let own = self.tasks[idx].signalMask;
        let mut mask = own;
        if self.tasks[idx].haveSavedSignalMask {
            mask = self.tasks[idx].savedSignalMask;
            self.tasks[idx].haveSavedSignalMask = false;
        }
        assert(self@.tasks =~= g0.tasks.update(idx as int, ThreadView { haveSavedSignalMask: false, ..t }));
        let mut newMask = SignalSet(own.0 | act.mask);
        if !act.flags.IsNoDefer() {
            newMask = SignalSet(newMask.0 | SignalSet::New(sig).0);
        }
        let th = Thread { tg: 0, idx };
        th.setSignalMaskLocked(self, newMask);
        mask
    }

    /// Puts the mask of a signal frame in force for thread `idx` and lets
    /// the thread interrupt itself if a signal waits for it.
    fn signalReturnLocked(&mut self, idx: usize, uc: &UContext)
        requires
            old(self)@.wf(),
            idx < old(self)@.tasks.len(),
        ensures
            final(self)@ == old(self)@.signalReturn(idx as int, *uc),
            final(self)@.wf(),
            old(self)@.sameThreads(final(self)@),
    {
        proof {
            old(self)@.lemma_signal_return_wf(idx as int, *uc);
        }
        let oldMask = uc.MContext.oldmask & !UNMASKABLE_MASK;
        let th = Thread { tg: 0, idx };
        th.setSignalMaskLocked(self, SignalSet(oldMask));
        let ghost g = self@;
        if self.tasks[idx].HasSignal(&self.pendingSignals) {
            self.tasks[idx].interruptSelf();
            assert(self@.tasks =~= g.tasks.update(idx as int, g.tasks[idx as int].interrupt()));
        }
    }
}

impl Task {
    /// Pushes the frame of a signal and returns where its parts stand.
    fn pushFrame(&mut self, base: u64, info: &SignalInfo, ctx: &UContext, restorer: u64) -> (r: Result<Frame, Error>)
        ensures
            final(self)@ == (TaskView { mm: PushFrame(old(self)@.mm, base, *info, *ctx, restorer).0, ..old(self)@ }),
            r == match PushFrame(old(self)@.mm, base, *info, *ctx, restorer).1 {
                Some(f) => Ok::<Frame, Error>(f),
                None => Err::<Frame, Error>(Error::SysError(SysErr::EFAULT)),
            },
    {
        let mut userStack = Stack::New(base);
        let sigInfoAddr = userStack.PushType(&mut self.mm, StackValue::Info(*info))?;
        let sigCtxAddr = userStack.PushType(&mut self.mm, StackValue::Context(*ctx))?;
        let rsp = userStack.PushU64(&mut self.mm, restorer)?;
        Ok(Frame { info: sigInfoAddr, ctx: sigCtxAddr, ret: rsp })
    }

    /// Sets the task up to run the handler of `sigAct` for `info`: builds
    /// the signal frame on the user stack, puts the handler's mask in
    /// force, and loads the registers for the handler's entry.
    ///
    /// The frame goes on the alternate stack if the action asks for it and
    /// the task has one, else below the red zone of the interrupted stack.
    /// It holds the `siginfo_t`, the `ucontext_t` with the interrupted
    /// registers and the mask to put back, and the restorer's address.
    /// `EFAULT` if the frame cannot be written; the mask and the alternate
    /// stack's mark are then changed all the same. Only where the frame
    /// would go below a stack pointer that is itself below 128 is it
    /// refused with nothing changed.
    #[verifier::rlimit(50)]
    pub fn deliverSignalToHandler(&mut self, ts: &mut TaskSet, info: &SignalInfo, sigAct: &SigAct) -> (r: Result<
        (),
        Error,
    >)
        requires
            TaskSetWf(old(ts)@),
            HasThread(old(ts)@, old(self)@.thread),
            Signal(info.Signo).valid(),
        ensures
            final(self)@ == old(self)@.enterHandler(
                old(ts)@[old(self)@.thread.tg as int].tasks[old(self)@.thread.idx as int],
                *info,
                *sigAct,
            ),
            r == old(self)@.enterHandlerResult(
                old(ts)@[old(self)@.thread.tg as int].tasks[old(self)@.thread.idx as int],
                *info,
                *sigAct,
            ),
            final(ts)@ == if old(self)@.noRoomForFrame(*sigAct) {
                old(ts)@
            } else {
                old(ts)@.update(
                    old(self)@.thread.tg as int,
                    old(ts)@[old(self)@.thread.tg as int].enterHandler(
                        old(self)@.thread.idx as int,
                        info.Signo as int,
                        *sigAct,
                    ),
                )
            },
            TaskSetWf(final(ts)@),
            SameTasks(old(ts)@, final(ts)@),
    {
        let pt = self.regs;
        let mut stack = self.signalStack;
        let mut switches = false;
        if sigAct.flags.IsOnStack() && stack.IsEnable() {
            stack.SetOnStack();
            switches = !stack.Contains(pt.rsp);
        }
        let base = if switches {
            stack.Top()
        } else {
            if pt.rsp < 128 {
                return Err(Error::SysError(SysErr::EFAULT));
            }
            // Skip the red zone.
            pt.rsp - 128
        };
        self.signalStack = stack;
        let t = self.thread;
        let tg = ts.Lock(t.tg);
        let mask = tg.enterHandlerLocked(t.idx, Signal(info.Signo), sigAct);
        proof {
            lemma_taskset_update(old(ts)@, t.tg as int, ts@[t.tg as int]);
        }
        let mut cr2: u64 = 0;
        if info.Signo == Signal::SIGBUS || info.Signo == Signal::SIGSEGV {
            cr2 = info.addr;
        }
        let ctx = UContext::New(&pt, mask.0, cr2, 0, &self.signalStack);
        let frame = self.pushFrame(base, info, &ctx, sigAct.restorer)?;

        let mut regs = PtRegs::default();
        regs.rsp = frame.ret;
        regs.rcx = sigAct.handler;
        regs.r11 = 0x2;
        regs.rdi = info.Signo as u64;
        regs.rsi = frame.info;
        regs.rdx = frame.ctx;
        regs.rax = 0;
        regs.rip = regs.rcx;
        regs.eflags = regs.r11;
        self.regs = regs;
        Ok(())
    }

    /// Returns from a signal handler: takes the `ucontext_t` and the
    /// `siginfo_t` of the frame at the stack pointer, and puts back the
    /// alternate stack, the registers, the flags that a handler may set,
    /// and the signal mask without `SIGKILL` and `SIGSTOP`. The thread
    /// interrupts itself if a signal waits that the mask lets through.
    ///
    /// Always an error: `EFAULT`, with nothing changed, if no frame stands
    /// at the stack pointer; else `SysCallRetCtrl(RunApp)`, which makes the
    /// dispatcher resume user mode without storing a return value.
    pub fn SignalReturn(&mut self, ts: &mut TaskSet, _rt: bool) -> (r: Result<i64, Error>)
        requires
            TaskSetWf(old(ts)@),
            HasThread(old(ts)@, old(self)@.thread),
        ensures
            final(self)@ == old(self)@.signalReturn(),
            r == match old(self)@.frameAtSp() {
                Some(_) => Err::<i64, Error>(Error::SysCallRetCtrl(TaskRunState::RunApp)),
                None => Err::<i64, Error>(Error::SysError(SysErr::EFAULT)),
            },
            final(ts)@ == match old(self)@.frameAtSp() {
                Some(uc) => old(ts)@.update(
                    old(self)@.thread.tg as int,
                    old(ts)@[old(self)@.thread.tg as int].signalReturn(old(self)@.thread.idx as int, uc),
                ),
                None => old(ts)@,
            },
            TaskSetWf(final(ts)@),
            SameTasks(old(ts)@, final(ts)@),
    {
        let mut userStack = Stack::New(self.regs.rsp);
        let uc = userStack.PopContext(&self.mm)?;
        let _sigInfo = userStack.PopInfo(&self.mm)?;

        let alt = uc.Stack;
        self.SetSignalStack(alt);

        let cEflags = self.regs.eflags;
        let nEflags = uc.MContext.eflags;
        self.regs.Load(&uc.MContext);

        let t = self.thread;
        let tg = ts.Lock(t.tg);
        tg.signalReturnLocked(t.idx, &uc);
        proof {
            lemma_taskset_update(old(ts)@, t.tg as int, ts@[t.tg as int]);
        }
        self.regs.eflags = (cEflags & !EflagsDef::EFLAGS_RESTOREABLE) | (nEflags & EflagsDef::EFLAGS_RESTOREABLE);
        self.regs.orig_rax = u64::MAX;
        Err(Error::SysCallRetCtrl(TaskRunState::RunApp))
    }
}


/// A return from a signal handler right after its entry undoes the entry.
///
/// Let a task with thread `t` of a well-formed group enter the handler of
/// `act` for `info`, and let the handler return with its stack pointer at
/// the frame's `ucontext_t` and any registers `handler`. Then `SignalReturn`
/// finds the frame, and afterwards
/// - the thread's mask is the one saved at entry, without `SIGKILL` and
///   `SIGSTOP`: its mask before the entry, if it had no saved mask;
/// - the alternate stack is the one recorded at entry: the one before the
///   entry, if the handler did not run on it;
/// - the flags that a handler may set, the instruction pointer, the stack
///   pointer and the general registers are those before the entry.
#[verifier::rlimit(50)]
pub proof fn lemma_signal_return_restores(
    task: TaskView,
    g: ThreadGroupView,
    idx: int,
    info: SignalInfo,
    act: SigAct,
    handler: PtRegs,
)
    requires
        g.wf(),
        0 <= idx < g.tasks.len(),
        0 < info.Signo <= 64,
        task.enterHandlerResult(g.tasks[idx], info, act) is Ok,
    ensures
        ({
            let t = g.tasks[idx];
            let ctx = task.frameContext(t.maskToRestore(), info, act);
            let entered = task.enterHandler(t, info, act);
            let f = PushFrame(task.mm, task.frameBase(act), info, ctx, act.restorer).1->0;
            let back = TaskView { regs: PtRegs { rsp: f.ctx, ..handler }, ..entered };
            let after = back.signalReturn();
            let group = g.enterHandler(idx, info.Signo as int, act).signalReturn(idx, ctx);
            &&& entered.regs.rsp == f.ret
            &&& f.ctx == f.ret + 8
            &&& back.frameAtSp() == Some(ctx)
            &&& group.tasks[idx].signalMask == SignalSet(t.maskToRestore().0 & !UNMASKABLE_MASK)
            &&& (!t.haveSavedSignalMask ==> group.tasks[idx].signalMask == t.signalMask)
            &&& after.signalStack == task.stackAtEntry(act)
            &&& (!task.usesAltStack(act) ==> after.signalStack == task.signalStack)
            &&& after.regs.eflags & EflagsDef::EFLAGS_RESTOREABLE == task.regs.eflags & EflagsDef::EFLAGS_RESTOREABLE
            &&& after.regs.eflags & !EflagsDef::EFLAGS_RESTOREABLE == handler.eflags & !EflagsDef::EFLAGS_RESTOREABLE
            &&& after.regs.rip == task.regs.rip
            &&& after.regs.rsp == task.regs.rsp
            &&& after.regs.rax == task.regs.rax
            &&& after.regs.rbx == task.regs.rbx
            &&& after.regs.rcx == task.regs.rcx
            &&& after.regs.rdx == task.regs.rdx
            &&& after.regs.rsi == task.regs.rsi
            &&& after.regs.rdi == task.regs.rdi
            &&& after.regs.rbp == task.regs.rbp
            &&& after.regs.r8 == task.regs.r8
            &&& after.regs.r9 == task.regs.r9
            &&& after.regs.r10 == task.regs.r10
            &&& after.regs.r11 == task.regs.r11
            &&& after.regs.r12 == task.regs.r12
            &&& after.regs.r13 == task.regs.r13
            &&& after.regs.r14 == task.regs.r14
            &&& after.regs.r15 == task.regs.r15
        }),
{
    let t = g.tasks[idx];
    assert(t.wf());
    let ctx = task.frameContext(t.maskToRestore(), info, act);
    let base = task.frameBase(act);
    let mm0 = task.mm;
    let a1 = (base - 128) as u64;
    let mm1 = mm0.written(a1, StackValue::Info(info));
    let a2 = (a1 - 304) as u64;
    let mm2 = mm1.written(a2, StackValue::Context(ctx));
    let a3 = (a2 - 8) as u64;
    let mm3 = mm2.written(a3, StackValue::Word(act.restorer));
    lemma_read_written(mm0.objects, a1, StackValue::Info(info));
    lemma_read_elsewhere(mm1.objects, a1, StackValue::Info(info), a2, StackValue::Context(ctx));
    lemma_read_elsewhere(mm2.objects, a1, StackValue::Info(info), a3, StackValue::Word(act.restorer));
    lemma_read_written(mm1.objects, a2, StackValue::Context(ctx));
    lemma_read_elsewhere(mm2.objects, a2, StackValue::Context(ctx), a3, StackValue::Word(act.restorer));
    assert(mm3.contextAt(a2) == Some(ctx));
    assert(mm3.infoAt(a1) == Some(info));

    let g1 = g.enterHandler(idx, info.Signo as int, act);
    g.lemma_enter_handler_wf(idx, info.Signo as int, act);
    g1.lemma_signal_return_wf(idx, ctx);
    let m = t.signalMask.0;
    assert(m & !0x40100u64 == m) by (bit_vector)
        requires
            m & 0x40100u64 == 0,
    ;
    let c = handler.eflags;
    let n = task.regs.eflags;
    assert(((c & !0x50dd5u64) | (n & 0x50dd5u64)) & 0x50dd5u64 == n & 0x50dd5u64) by (bit_vector);
    assert(((c & !0x50dd5u64) | (n & 0x50dd5u64)) & !0x50dd5u64 == c & !0x50dd5u64) by (bit_vector);
}

/// Outcome of a step of the interrupt path: the task, the task set, and
/// the run state that the task takes next.
pub struct Delivery {
    pub task: TaskView,
    pub ts: Seq<ThreadGroupView>,
    pub state: TaskRunState,
}

/// System-call result that stands for an interrupted call: minus `EINTR`.
pub const EINTR_RETURN: u64 = 0xffff_ffff_ffff_fffc;

impl TaskView {
    /// The task after the result of an interrupted system call has been
    /// settled for a signal with action `sigact` under `act`.
    ///
    /// Only a handler that runs settles it. `ERESTARTNOHAND`, and without
    /// `SA_RESTART` also `ERESTARTSYS` and `ERESTART_RESTARTBLOCK`, become
    /// `EINTR`; else `ERESTART_RESTARTBLOCK` resumes through
    /// `restart_syscall`, and any other restart errno enters the call
    /// again.
    pub open spec fn settleRestart(self, act: SigAct, sigact: u64) -> TaskView {
        let restart = act.flags.0 & SigFlag::SIGNAL_FLAG_RESTART != 0;
        match RestartErrno(self.regs.rax) {
            Some(sre) => if !self.haveSyscallReturn || sigact != SignalAction::HANDLER {
                self
            } else if sre == SysErr::ERESTARTNOHAND || (sre == SysErr::ERESTART_RESTARTBLOCK && !restart) || (sre
                == SysErr::ERESTARTSYS && !restart) {
                TaskView { regs: PtRegs { rax: EINTR_RETURN, ..self.regs }, ..self }
            } else if sre == SysErr::ERESTART_RESTARTBLOCK {
                TaskView {
                    regs: PtRegs {
                        rip: BeforeSyscall(self.regs.rip),
                        rax: SYS_RESTART_SYSCALL,
                        ..self.regs
                    },
                    ..self
                }
            } else {
                TaskView {
                    regs: PtRegs {
                        rip: BeforeSyscall(self.regs.rip),
                        rax: self.regs.orig_rax,
                        ..self.regs
                    },
                    ..self
                }
            },
            None => self,
        }
    }
}

/// The task set with group `g` replaced by `n`.
pub open spec fn Put(ts: Seq<ThreadGroupView>, g: usize, n: ThreadGroupView) -> Seq<ThreadGroupView> {
    ts.update(g as int, n)
}

/// The signal that the kernel sends to a thread whose handler could not be
/// entered.
pub open spec fn FaultInfo() -> SignalInfo {
    SignalInfo::bare(Signal::SIGSEGV, SignalInfo::SIGNAL_INFO_KERNEL)
}

/// The task set after the handler of `signo` could not be entered by
/// thread `th`: the thread neither ignores nor blocks `SIGSEGV` any more,
/// and a `SIGSEGV` is sent to it.
pub open spec fn DemoteToFault(ts: Seq<ThreadGroupView>, th: Thread, signo: i32) -> Seq<ThreadGroupView> {
    let g = ts[th.tg as int].forceSignal(th.idx as int, Signal::SIGSEGV as int, signo == Signal::SIGSEGV);
    Put(ts, th.tg, g.sendSignal(th.idx as int, FaultInfo(), false, None))
}

/// What `ThreadDeliverSignal` does with `info` under action `act`.
///
/// The action decides: to terminate, with or without core, begins a group
/// exit with the signal as status, and the task exits; to stop tries to
/// begin a group stop; to ignore does nothing; a handler is entered, and
/// if that fails the signal is demoted to `SIGSEGV`. But for the exit and
/// the handler entered, the task goes through the interrupt path again.
pub open spec fn Deliver(task: TaskView, ts: Seq<ThreadGroupView>, info: SignalInfo, act: SigAct) -> Delivery {
    let th = task.thread;
    let g = ts[th.tg as int];
    let sigact = ActionOf(info.Signo as int, act.handler);
    let settled = task.settleRestart(act, sigact);
    if sigact == SignalAction::TERM || sigact == SignalAction::CORE {
        Delivery {
            task: settled,
            ts: Put(ts, th.tg, g.prepareGroupExit(th.idx as int, ExitStatus { Code: 0, Signo: info.Signo })),
            state: TaskRunState::RunExit,
        }
    } else if sigact == SignalAction::STOP {
        Delivery {
            task: settled,
            ts: Put(ts, th.tg, g.initiateStop(th.idx as int, info.Signo)),
            state: TaskRunState::RunInterrupt,
        }
    } else if sigact == SignalAction::IGNORE {
        Delivery { task: settled, ts, state: TaskRunState::RunInterrupt }
    } else {
        let t = g.tasks[th.idx as int];
        let entered = settled.enterHandler(t, info, act);
        let ts1 = if settled.noRoomForFrame(act) {
            ts
        } else {
            Put(ts, th.tg, g.enterHandler(th.idx as int, info.Signo as int, act))
        };
        if settled.enterHandlerResult(t, info, act) is Ok {
            Delivery { task: entered, ts: ts1, state: TaskRunState::RunSyscallRet }
        } else {
            Delivery { task: entered, ts: DemoteToFault(ts1, th, info.Signo), state: TaskRunState::RunInterrupt }
        }
    }
}

impl Task {
    /// Settles the result of an interrupted system call before a signal
    /// with action `sigact` is delivered.
    fn settleRestart(&mut self, act: &SigAct, sigact: u64)
        ensures
            final(self)@ == old(self)@.settleRestart(*act, sigact),
    {
        if self.haveSyscallReturn {
            let ret = self.Return();
            let (sre, ok) = SyscallRestartErrnoFromReturn(ret);
            if ok {
                // A signal that is ignored, or that stops or ends the
                // group, leaves the interrupted call to the first signal
                // that a handler takes.
                if sigact == SignalAction::HANDLER {
                    if sre == SysErr::ERESTARTNOHAND || (sre == SysErr::ERESTART_RESTARTBLOCK && !act.flags.IsRestart())
                        || (sre == SysErr::ERESTARTSYS && !act.flags.IsRestart()) {
                        self.SetReturn(EINTR_RETURN);
                    } else if sre == SysErr::ERESTART_RESTARTBLOCK {
                        self.RestartSyscallWithRestartBlock();
                    } else {
                        self.RestartSyscall();
                    }
                }
            }
        }
    }

    /// Delivers the signal `info`, taken from a queue, under action `act`,
    /// and returns the run state that follows.
    #[verifier::rlimit(50)]
    pub fn ThreadDeliverSignal(&mut self, ts: &mut TaskSet, info: &SignalInfo, act: &SigAct) -> (r: TaskRunState)
        requires
            TaskSetWf(old(ts)@),
            HasThread(old(ts)@, old(self)@.thread),
            0 <= info.Signo <= 64,
            old(ts)@[old(self)@.thread.tg as int].tasks[old(self)@.thread.idx as int].exitState
                != TaskExitState::TaskExitDead,
        ensures
            final(self)@ == Deliver(old(self)@, old(ts)@, *info, *act).task,
            final(ts)@ == Deliver(old(self)@, old(ts)@, *info, *act).ts,
            r == Deliver(old(self)@, old(ts)@, *info, *act).state,
            TaskSetWf(final(ts)@),
            SameTasks(old(ts)@, final(ts)@),
    {
        let sigact = ComputeAction(Signal(info.Signo), act);
        self.settleRestart(act, sigact);
        let th = self.thread;
        if sigact == SignalAction::TERM || sigact == SignalAction::CORE {
            th.PrepareGroupExit(ts, ExitStatus { Code: 0, Signo: info.Signo });
            return TaskRunState::RunExit;
        } else if sigact == SignalAction::STOP {
            th.initiateGroupStop(ts, info);
        } else if sigact == SignalAction::IGNORE {
        } else {
            let res = self.deliverSignalToHandler(ts, info, act);
            match res {
                Err(_) => {
                    proof {
                        if !old(self)@.settleRestart(*act, sigact).noRoomForFrame(*act) {
                            old(ts)@[th.tg as int].lemma_enter_handler_wf(th.idx as int, info.Signo as int, *act);
                        }
                    }
                    let ghost ts1 = ts@;
                    th.forceSignal(ts, Signal(Signal::SIGSEGV), info.Signo == Signal::SIGSEGV);
                    let ghost ts2 = ts@;
                    let _ = th.SendSignal(ts, &SignalInfoPriv(Signal::SIGSEGV));
                    proof {
                        lemma_same_tasks_trans(old(ts)@, ts1, ts2);
                        lemma_same_tasks_trans(old(ts)@, ts2, ts@);
                    }
                },
                Ok(()) => {
                    return TaskRunState::RunSyscallRet;
                },
            }
        }
        TaskRunState::RunInterrupt
    }
}


/// The leader of group `g`, where it has one.
pub open spec fn LeaderOf(ts: Seq<ThreadGroupView>, g: usize) -> Thread {
    Thread { tg: g, idx: ts[g as int].leader->0 }
}

/// Whether the parent of `leader`, if it has one, can still take a signal.
pub open spec fn ParentAlive(ts: Seq<ThreadGroupView>, leader: Thread) -> bool {
    ts[leader.tg as int].tasks[leader.idx as int].parent matches Some(p) ==> ts[p.tg as int].tasks[p.idx as int].exitState
        != TaskExitState::TaskExitDead
}

/// The task set after the parent of `leader`, if it has one, has been told
/// that the leader's group stopped or continued: a `SIGCHLD` with `code`
/// and `status` goes to the parent's group, unless that group does not
/// want it, and `events` are notified on the event queue of that group.
pub open spec fn NotifyParent(ts: Seq<ThreadGroupView>, leader: Thread, code: i32, status: i32, events: EventMask) -> Seq<
    ThreadGroupView,
> {
    let l = ts[leader.tg as int].tasks[leader.idx as int];
    match l.parent {
        Some(p) => {
            let notice = ThreadGroupView::stopNotice(l.id, l.uid, code, status);
            let ts1 = Put(ts, p.tg, ts[p.tg as int].signalStop(p.idx as int, notice));
            Put(ts1, p.tg, ts1[p.tg as int].notifyEvents(events))
        },
        None => ts,
    }
}

/// Whether thread `th` is in a state in which a task runs the interrupt
/// path: it is a thread of the well-formed task set, not stopped and not
/// dead, its group has a leader, and the leader's parent, if it has one,
/// is not dead.
pub open spec fn CanRun(ts: Seq<ThreadGroupView>, th: Thread) -> bool {
    &&& TaskSetWf(ts)
    &&& HasThread(ts, th)
    &&& ts[th.tg as int].leader is Some
    &&& ts[th.tg as int].tasks[th.idx as int].stop is None
    &&& ts[th.tg as int].tasks[th.idx as int].exitState != TaskExitState::TaskExitDead
    &&& ParentAlive(ts, LeaderOf(ts, th.tg))
}

impl ThreadGroupView {
    /// Whether thread `idx`, by joining the group stop, completes it.
    pub open spec fn completesStop(self, idx: int) -> bool {
        self.tasks[idx].groupStopPending && CompletesStop(
            self.tasks[idx].groupStopAcknowledged,
            self.groupStop,
        )
    }

    /// The group after thread `idx` has answered a pending stop: if a
    /// group stop was pending for it, it has joined that stop; nothing is
    /// pending for it any more; and unless it has been killed, the group
    /// stop holds it.
    pub open spec fn joinStop(self, idx: int) -> ThreadGroupView {
        let t = self.tasks[idx];
        ThreadGroupView {
            groupStop: if t.groupStopPending {
                AfterParticipation(t.groupStopAcknowledged, self.groupStop)
            } else {
                self.groupStop
            },
            tasks: self.tasks.update(
                idx,
                ThreadView {
                    groupStopPending: false,
                    groupStopAcknowledged: t.groupStopPending || t.groupStopAcknowledged,
                    trapStopPending: false,
                    trapNotifyPending: false,
                    stop: if t.killed() {
                        t.stop
                    } else {
                        Some(StopInForce { Type: TaskStopType::GROUPSTOP, Killable: true })
                    },
                    ..t
                },
            ),
            ..self
        }
    }

    /// `joinStop` keeps the group well formed and its threads the same. It
    /// keeps the count of threads awaited exact, unless the thread had a
    /// group stop pending that it had joined already.
    pub proof fn lemma_join_stop_wf(self, idx: int)
        requires
            self.wf(),
            0 <= idx < self.tasks.len(),
        ensures
            self.joinStop(idx).wf(),
            self.sameThreads(self.joinStop(idx)),
            self.joinStop(idx).tasks[idx].exitState == self.tasks[idx].exitState,
            self.countExact() && !(self.tasks[idx].groupStopPending && self.tasks[idx].groupStopAcknowledged)
                ==> self.joinStop(idx).countExact(),
            self.tasks[idx].groupStopPending && !self.tasks[idx].groupStopAcknowledged
                ==> self.groupStop.groupStopPendingCount > i32::MIN,
    {
        let n = self.joinStop(idx);
        lemma_counts_update(self.tasks, idx, n.tasks[idx]);
        lemma_counts_bounded(self.tasks);
        lemma_counts_bounded(n.tasks);
        assert forall|i: int| 0 <= i < n.tasks.len() implies (#[trigger] n.tasks[i]).wf() by {
            assert(self.tasks[i].wf());
        }
    }

    /// The group after thread `idx` has taken the signal `info` from a
    /// queue for delivery: the signal has left its queue; if it is a stop
    /// signal, the group notes that one was dequeued; and an action with
    /// `SA_RESETHAND` is unset.
    pub open spec fn takeSignal(self, idx: int, info: SignalInfo) -> ThreadGroupView {
        let g = self.dequeue(idx, self.tasks[idx].signalMask);
        ThreadGroupView {
            groupStop: if StopSignals().contains(info.Signo as int) {
                GroupStopState { groupStopDequeued: true, ..g.groupStop }
            } else {
                g.groupStop
            },
            actions: AfterDequeAct(g.actions, info.Signo as int),
            ..g
        }
    }
}

/// What a pass through the interrupt path does.
///
/// The checks come in this order. A continue of the group that is yet to
/// be announced is announced to the leader's parent: as a stop if the group
/// continued before its stop was complete. Else a stop pending for the
/// thread is answered, and the parent is told if that completes the group
/// stop. Else a signal that the thread's mask lets through is taken and
/// delivered; without one the task goes back to user mode.
pub open spec fn Interrupt(task: TaskView, ts: Seq<ThreadGroupView>) -> Delivery {
    let th = task.thread;
    let g = ts[th.tg as int];
    let t = g.tasks[th.idx as int];
    let leader = LeaderOf(ts, th.tg);
    let sig = g.groupStop.groupStopSignal.0;
    if g.groupStop.groupContNotify {
        let ts1 = Put(
            ts,
            th.tg,
            ThreadGroupView {
                groupStop: GroupStopState { groupContNotify: false, ..g.groupStop },
                ..g
            },
        );
        Delivery {
            task,
            ts: if g.groupStop.groupContInterrupted {
                NotifyParent(
                    ts1,
                    leader,
                    SignalInfo::CLD_STOPPED,
                    sig,
                    EVENT_GROUP_CONTINUE
                        | EVENT_CHILD_GROUP_STOP,
                )
            } else {
                NotifyParent(
                    ts1,
                    leader,
                    SignalInfo::CLD_CONTINUED,
                    sig,
                    EVENT_GROUP_CONTINUE,
                )
            },
            state: TaskRunState::RunInterrupt,
        }
    } else if t.groupStopPending || t.trapStopPending || t.trapNotifyPending {
        let ts1 = Put(ts, th.tg, g.joinStop(th.idx as int));
        Delivery {
            task,
            ts: if g.completesStop(th.idx as int) {
                NotifyParent(
                    ts1,
                    leader,
                    SignalInfo::CLD_STOPPED,
                    sig,
                    EVENT_CHILD_GROUP_STOP,
                )
            } else {
                ts1
            },
            state: TaskRunState::RunInterrupt,
        }
    } else {
        match g.dequeued(th.idx as int, t.signalMask) {
            None => Delivery { task, ts, state: TaskRunState::RunApp },
            Some(info) => Deliver(
                task,
                Put(ts, th.tg, g.takeSignal(th.idx as int, info)),
                info,
                ActOf(g.actions, info.Signo as int),
            ),
        }
    }
}

/// The notice that the parent of `leader` gets of the leader's group.
pub open spec fn NoticeOf(ts: Seq<ThreadGroupView>, leader: Thread, code: i32, status: i32) -> SignalInfo {
    let l = ts[leader.tg as int].tasks[leader.idx as int];
    ThreadGroupView::stopNotice(l.id, l.uid, code, status)
}

/// The notice of a child is a `SIGCHLD`, and taking it leaves the stop
/// state of the group that takes it as it was.
pub proof fn lemma_notice_keeps_stop_state(g: ThreadGroupView, idx: int, pid: i32, uid: u32, code: i32, status: i32)
    ensures
        ThreadGroupView::stopNotice(pid, uid, code, status).Signo == Signal::SIGCHLD,
        g.signalStop(idx, ThreadGroupView::stopNotice(pid, uid, code, status)).groupStop == g.groupStop,
{
    reveal(ThreadGroupView::applySideEffects);
    reveal(ThreadGroupView::notifyReceiver);
    reveal(ThreadGroupView::wakeReceiver);
}

/// A pass of the interrupt path for a thread for which a group stop is
/// pending, with no continue to announce.
///
/// The thread joins the stop: nothing is pending for it any more, it has
/// acknowledged the stop, and the group stop holds it, unless it has been
/// killed: then nothing holds it. No signal leaves a queue, the task is as it was, and another
/// pass is asked for. Unless the thread is the last that the stop waited
/// for, and its leader has a parent, nothing else changes: no group hears
/// of it. If it is the last, the stop is complete and the leader's parent
/// is told so.
pub proof fn lemma_interrupt_joins_stop(task: TaskView, ts: Seq<ThreadGroupView>)
    requires
        CanRun(ts, task.thread),
        !ts[task.thread.tg as int].groupStop.groupContNotify,
        ts[task.thread.tg as int].tasks[task.thread.idx as int].groupStopPending,
    ensures
        ({
            let th = task.thread;
            let g = ts[th.tg as int];
            let t = g.tasks[th.idx as int];
            let leader = LeaderOf(ts, th.tg);
            let joined = g.joinStop(th.idx as int);
            let d = Interrupt(task, ts);
            &&& d.state == TaskRunState::RunInterrupt
            &&& d.task == task
            &&& !joined.tasks[th.idx as int].groupStopPending
            &&& !joined.tasks[th.idx as int].trapStopPending
            &&& !joined.tasks[th.idx as int].trapNotifyPending
            &&& joined.tasks[th.idx as int].groupStopAcknowledged
            &&& !t.killed() ==> joined.tasks[th.idx as int].stop == Some(
                StopInForce { Type: TaskStopType::GROUPSTOP, Killable: true },
            )
            &&& t.killed() ==> joined.tasks[th.idx as int].stop is None
            &&& joined.pendingSignals == g.pendingSignals
            &&& joined.tasks[th.idx as int].pendingSignals == t.pendingSignals
            &&& g.completesStop(th.idx as int) ==> joined.groupStop.groupStopComplete
                && joined.groupStop.groupStopPendingCount == 0
            &&& !g.completesStop(th.idx as int) || g.tasks[leader.idx as int].parent is None ==> d.ts == Put(
                ts,
                th.tg,
                joined,
            )
            &&& g.completesStop(th.idx as int) ==> d.ts == NotifyParent(
                Put(ts, th.tg, joined),
                leader,
                SignalInfo::CLD_STOPPED,
                g.groupStop.groupStopSignal.0,
                EVENT_CHILD_GROUP_STOP,
            )
        }),
{
    let th = task.thread;
    let g = ts[th.tg as int];
    let joined = g.joinStop(th.idx as int);
    let leader = LeaderOf(ts, th.tg);
    assert(Put(ts, th.tg, joined)[leader.tg as int].tasks[leader.idx as int].parent == g.tasks[leader.idx as int].parent);
}

/// The last thread that a group stop waited for has the leader's parent
/// told of the stop.
///
/// Where the parent `p` is a thread of another group: that group is sent a
/// `SIGCHLD` for `p` with the code `CLD_STOPPED`, the leader's id and the
/// stop signal as status, unless it does not want to hear of stops, and
/// the waiters for `EVENT_CHILD_GROUP_STOP` on its event queue are
/// notified. The thread's own group has joined the stop, and every other
/// group is as it was.
pub proof fn lemma_interrupt_completes_stop(task: TaskView, ts: Seq<ThreadGroupView>, p: Thread)
    requires
        CanRun(ts, task.thread),
        !ts[task.thread.tg as int].groupStop.groupContNotify,
        ts[task.thread.tg as int].completesStop(task.thread.idx as int),
        ts[task.thread.tg as int].tasks[LeaderOf(ts, task.thread.tg).idx as int].parent == Some(p),
        p.tg != task.thread.tg,
    ensures
        ({
            let th = task.thread;
            let g = ts[th.tg as int];
            let leader = LeaderOf(ts, th.tg);
            let notice = NoticeOf(ts, leader, SignalInfo::CLD_STOPPED, g.groupStop.groupStopSignal.0);
            let d = Interrupt(task, ts);
            &&& d.ts.len() == ts.len()
            &&& d.ts[th.tg as int] == g.joinStop(th.idx as int)
            &&& d.ts[p.tg as int] == (if ts[p.tg as int].wantsStopNotice() {
                ts[p.tg as int].sendSignal(p.idx as int, notice, true, None)
            } else {
                ts[p.tg as int]
            }).notifyEvents(EVENT_CHILD_GROUP_STOP)
            &&& notice == (SignalInfo {
                Signo: Signal::SIGCHLD,
                Errno: 0,
                Code: SignalInfo::CLD_STOPPED,
                pid: g.tasks[leader.idx as int].id,
                uid: g.tasks[leader.idx as int].uid,
                status: g.groupStop.groupStopSignal.0,
                addr: 0,
            })
            &&& forall|k: int| 0 <= k < ts.len() && k != th.tg && k != p.tg ==> #[trigger] d.ts[k] == ts[k]
        }),
{
    let th = task.thread;
    let g = ts[th.tg as int];
    let leader = LeaderOf(ts, th.tg);
    lemma_interrupt_joins_stop(task, ts);
    g.lemma_join_stop_wf(th.idx as int);
    assert(HasThread(ts, p));
}

/// A pass of the interrupt path in a group whose continue waits to be
/// announced.
///
/// The continue counts as announced, so that no later pass announces it
/// again. The leader's parent, if it has one, is told: of a continue, with
/// `CLD_CONTINUED` and `EVENT_GROUP_CONTINUE`; or, if the continue cut a
/// stop short before it was complete, of that stop, with `CLD_STOPPED`
/// and both `EVENT_GROUP_CONTINUE` and `EVENT_CHILD_GROUP_STOP`. The
/// status is the stop signal that the group keeps. Nothing else changes,
/// the task is as it was, and another pass is asked for.
pub proof fn lemma_interrupt_announces_continue(task: TaskView, ts: Seq<ThreadGroupView>)
    requires
        CanRun(ts, task.thread),
        ts[task.thread.tg as int].groupStop.groupContNotify,
    ensures
        ({
            let th = task.thread;
            let g = ts[th.tg as int];
            let leader = LeaderOf(ts, th.tg);
            let announced = ThreadGroupView {
                groupStop: GroupStopState { groupContNotify: false, ..g.groupStop },
                ..g
            };
            let code = if g.groupStop.groupContInterrupted {
                SignalInfo::CLD_STOPPED
            } else {
                SignalInfo::CLD_CONTINUED
            };
            let events = if g.groupStop.groupContInterrupted {
                EVENT_GROUP_CONTINUE | EVENT_CHILD_GROUP_STOP
            } else {
                EVENT_GROUP_CONTINUE
            };
            let notice = NoticeOf(ts, leader, code, g.groupStop.groupStopSignal.0);
            let d = Interrupt(task, ts);
            &&& d.state == TaskRunState::RunInterrupt
            &&& d.task == task
            &&& d.ts.len() == ts.len()
            &&& d.ts == NotifyParent(Put(ts, th.tg, announced), leader, code, g.groupStop.groupStopSignal.0, events)
            &&& !d.ts[th.tg as int].groupStop.groupContNotify
            &&& g.tasks[leader.idx as int].parent is None ==> d.ts == Put(ts, th.tg, announced)
            &&& forall|p: Thread|
                g.tasks[leader.idx as int].parent == Some(p) && p.tg != th.tg ==> {
                    &&& d.ts[th.tg as int] == announced
                    &&& #[trigger] d.ts[p.tg as int] == (if ts[p.tg as int].wantsStopNotice() {
                        ts[p.tg as int].sendSignal(p.idx as int, notice, true, None)
                    } else {
                        ts[p.tg as int]
                    }).notifyEvents(events)
                    &&& forall|k: int| 0 <= k < ts.len() && k != th.tg && k != p.tg ==> #[trigger] d.ts[k] == ts[k]
                }
        }),
{
    let th = task.thread;
    let g = ts[th.tg as int];
    let leader = LeaderOf(ts, th.tg);
    let l = g.tasks[leader.idx as int];
    let announced = ThreadGroupView { groupStop: GroupStopState { groupContNotify: false, ..g.groupStop }, ..g };
    let ts1 = Put(ts, th.tg, announced);
    assert(ts1[leader.tg as int].tasks[leader.idx as int] == l);
    match l.parent {
        Some(p) => {
            assert(HasThread(ts, p));
            let code = if g.groupStop.groupContInterrupted {
                SignalInfo::CLD_STOPPED
            } else {
                SignalInfo::CLD_CONTINUED
            };
            lemma_notice_keeps_stop_state(ts1[p.tg as int], p.idx as int, l.id, l.uid, code, g.groupStop.groupStopSignal.0);
        },
        None => {},
    }
}

impl TaskSet {
    /// Tells the parent of `leader`, if it has one, that the leader's
    /// group stopped or continued.
    pub fn notifyParent(&mut self, leader: &Thread, code: i32, status: i32, events: EventMask)
        requires
            TaskSetWf(old(self)@),
            HasThread(old(self)@, *leader),
            ParentAlive(old(self)@, *leader),
        ensures
            final(self)@ == NotifyParent(old(self)@, *leader, code, status, events),
            TaskSetWf(final(self)@),
            SameTasks(old(self)@, final(self)@),
    {
        let parent = self.groups[leader.tg].tasks[leader.idx].parent;
        match parent {
            None => {},
            Some(p) => {
                assert(old(self)@[leader.tg as int].tasks[leader.idx as int].parent == Some(p));
                assert(HasThread(old(self)@, p));
                p.signalStop(self, leader, code, status);
                let ghost ts1 = self@;
                let ptg = self.Lock(p.tg);
                let ghost g = ptg@;
                ptg.eventQueue.Notify(events);
                proof {
                    assert(ptg@.tasks =~= g.tasks);
                    g.lemma_same_flags_wf(ptg@);
                    assert(g.sameThreads(ptg@));
                    lemma_taskset_update(ts1, p.tg as int, self@[p.tg as int]);
                    lemma_same_tasks_trans(old(self)@, ts1, self@);
                }
            },
        }
    }
}

impl ThreadGroupInternal {
    /// Answers a stop pending for thread `idx`; says whether that
    /// completes the group stop.
    fn joinStopLocked(&mut self, idx: usize) -> (r: bool)
        requires
            old(self)@.wf(),
            idx < old(self)@.tasks.len(),
            old(self)@.tasks[idx as int].stop is None,
        ensures
            r == old(self)@.completesStop(idx as int),
            final(self)@ == old(self)@.joinStop(idx as int),
            final(self)@.wf(),
            old(self)@.sameThreads(final(self)@),
    {
        proof {
            old(self)@.lemma_join_stop_wf(idx as int);
        }
        let mut notifyParent = false;
        if self.tasks[idx].groupStopPending {
            self.tasks[idx].groupStopPending = false;
            // The signal of the stop matters to the parent even if this
            // thread does not complete the stop.
            notifyParent = self.tasks[idx].participateGroupStopLocked(&mut self.groupStop);
        }
        self.tasks[idx].trapStopPending = false;
        self.tasks[idx].trapNotifyPending = false;
        if !self.tasks[idx].killedLocked() {
            self.tasks[idx].beginInternalStopLocked(&GroupStop {  });
        }
        assert(self@.tasks =~= old(self)@.joinStop(idx as int).tasks);
        notifyParent
    }

    /// Notes that `info` has been taken from a queue for delivery, and
    /// returns the action to deliver it under.
    fn noteTaken(&mut self, info: &SignalInfo) -> (act: SigAct)
        requires
            old(self)@.wf(),
            0 < info.Signo <= 64,
        ensures
            act == ActOf(old(self)@.actions, info.Signo as int),
            final(self)@ == (ThreadGroupView {
                groupStop: if StopSignals().contains(info.Signo as int) {
                    GroupStopState {
                        groupStopDequeued: true,
                        ..old(self)@.groupStop
                    }
                } else {
                    old(self)@.groupStop
                },
                actions: AfterDequeAct(old(self)@.actions, info.Signo as int),
                ..old(self)@
            }),
            final(self)@.wf(),
            old(self)@.sameThreads(final(self)@),
    {
        let bit = SignalSet::New(Signal(info.Signo)).0;
        proof {
            lemma_stop_mask(info.Signo as int);
        }
        if bit & STOP_MASK != 0 {
            // A racing SIGCONT clears this again, and the stop is then
            // given up when it is about to begin.
            self.groupStop.groupStopDequeued = true;
        }
        let act = self.signalHandlers.DequeAct(Signal(info.Signo));
        proof {
            assert(self@.tasks =~= old(self)@.tasks);
            old(self)@.lemma_same_flags_wf(self@);
        }
        act
    }

    /// Takes a signal for thread `idx` that its mask lets through, with
    /// the action to deliver it under.
    #[verifier::rlimit(50)]
    fn takeSignalLocked(&mut self, idx: usize) -> (r: Option<(SignalInfo, SigAct)>)
        requires
            old(self)@.wf(),
            idx < old(self)@.tasks.len(),
        ensures
            r == match old(self)@.dequeued(idx as int, old(self)@.tasks[idx as int].signalMask) {
                Some(info) => Some((info, ActOf(old(self)@.actions, info.Signo as int))),
                None => None,
            },
            final(self)@ == match old(self)@.dequeued(idx as int, old(self)@.tasks[idx as int].signalMask) {
                Some(info) => old(self)@.takeSignal(idx as int, info),
                None => old(self)@,
            },
            r matches Some(p) ==> 0 < p.0.Signo <= 64,
            final(self)@.tasks[idx as int].exitState == old(self)@.tasks[idx as int].exitState,
            final(self)@.wf(),
            old(self)@.sameThreads(final(self)@),
    {
        let ghost g0 = self@;
        let signalMask = self.tasks[idx].signalMask;
        proof {
            assert(g0.tasks[idx as int].wf());
            g0.tasks[idx as int].pendingSignals.lemma_front_valid(signalMask);
            g0.pendingSignals.lemma_front_valid(signalMask);
        }
        let info = match self.dequeueLocked(idx, signalMask) {
            Some(info) => info,
            None => {
                assert(self@.tasks =~= g0.tasks);
                return None;
            },
        };
        let act = self.noteTaken(&info);
        proof {
            g0.lemma_same_threads_trans(g0.dequeue(idx as int, signalMask), self@);
        }
        Some((info, act))
    }
}

impl Task {
    /// Runs the checks of an interrupted task, once: announces a continue
    /// of the group, or answers a pending stop, or takes a signal and
    /// delivers it. Returns the run state that follows; `RunInterrupt`
    /// asks for another pass, since one interrupt may stand for several
    /// conditions.
    #[verifier::rlimit(50)]
    pub fn RunInterrupt(&mut self, ts: &mut TaskSet) -> (r: TaskRunState)
        requires
            CanRun(old(ts)@, old(self)@.thread),
        ensures
            final(self)@ == Interrupt(old(self)@, old(ts)@).task,
            final(ts)@ == Interrupt(old(self)@, old(ts)@).ts,
            r == Interrupt(old(self)@, old(ts)@).state,
            TaskSetWf(final(ts)@),
            SameTasks(old(ts)@, final(ts)@),
    {
        let th = self.thread;
        let ghost ts0 = ts@;
        let ghost g0 = ts0[th.tg as int];
        let tg = ts.Lock(th.tg);
        let leader = match tg.leader {
            Some(l) => Thread { tg: th.tg, idx: l },
            None => {
                proof {
                    assert(false);
                }
                Thread { tg: th.tg, idx: th.idx }
            },
        };

        // Did the group just leave a stop?
        if tg.groupStop.groupContNotify {
            tg.groupStop.groupContNotify = false;
            let sig = tg.groupStop.groupStopSignal;
            let intr = tg.groupStop.groupContInterrupted;
            proof {
                assert(tg@.tasks =~= g0.tasks);
                g0.lemma_same_flags_wf_any_stop(tg@);
                lemma_taskset_update(ts0, th.tg as int, ts@[th.tg as int]);
            }
            let ghost ts1 = ts@;
            // A continue that cut a stop short is announced as the stop:
            // of the two notices the second would be dropped anyway.
            if intr {
                ts.notifyParent(
                    &leader,
                    SignalInfo::CLD_STOPPED,
                    sig.0,
                    EVENT_GROUP_CONTINUE
                        | EVENT_CHILD_GROUP_STOP,
                );
            } else {
                ts.notifyParent(
                    &leader,
                    SignalInfo::CLD_CONTINUED,
                    sig.0,
                    EVENT_GROUP_CONTINUE,
                );
            }
            proof {
                lemma_same_tasks_trans(ts0, ts1, ts@);
            }
            return TaskRunState::RunInterrupt;
        }

        // Must the thread enter a group stop?
        let pending = tg.tasks[th.idx].groupStopPending || tg.tasks[th.idx].trapStopPending
            || tg.tasks[th.idx].trapNotifyPending;
        if pending {
            let sig = tg.groupStop.groupStopSignal;
            let notifyParent = tg.joinStopLocked(th.idx);
            proof {
                g0.lemma_join_stop_wf(th.idx as int);
                lemma_taskset_update(ts0, th.tg as int, ts@[th.tg as int]);
            }
            let ghost ts1 = ts@;
            if notifyParent {
                ts.notifyParent(
                    &leader,
                    SignalInfo::CLD_STOPPED,
                    sig.0,
                    EVENT_CHILD_GROUP_STOP,
                );
                proof {
                    lemma_same_tasks_trans(ts0, ts1, ts@);
                }
            }
            return TaskRunState::RunInterrupt;
        }

        // Is a signal waiting?
        let taken = tg.takeSignalLocked(th.idx);
        proof {
            lemma_taskset_update(ts0, th.tg as int, ts@[th.tg as int]);
        }
        let ghost ts1 = ts@;
        match taken {
            None => {
                proof {
                    assert(ts@ =~= ts0);
                }
                TaskRunState::RunApp
            },
            Some((info, act)) => {
                let r = self.ThreadDeliverSignal(ts, &info, &act);
                proof {
                    lemma_same_tasks_trans(ts0, ts1, ts@);
                }
                r
            },
        }
    }
}

impl ThreadGroupView {
    /// A group that differs from `self` in its stop state only, with the
    /// same count of threads awaited, is well formed and has the same
    /// threads.
    pub proof fn lemma_same_flags_wf_any_stop(self, n: ThreadGroupView)
        requires
            self.wf(),
            n == (ThreadGroupView { groupStop: n.groupStop, ..self }),
            n.groupStop.groupStopPendingCount == self.groupStop.groupStopPendingCount,
        ensures
            n.wf(),
            self.sameThreads(n),
    {
    }
}

} // verus!
