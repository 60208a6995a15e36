//! The signal state machine: what a signal does, who receives it, group
//! stops, and delivery to user handlers.

use vstd::prelude::*;
use crate::SignalDef::IntervalTimer;
use crate::SignalDef::PendingSignals;
use crate::SignalDef::PendingView;
use crate::kernel::waiter::WaitEntry;
use crate::kernel::waiter::Without;
use crate::qlib::common::Error;
use crate::qlib::common::SysErr;
use crate::qlib::linux_def::Bit;
use crate::qlib::linux_def::EventMask;
use crate::qlib::linux_def::ExitStatus;
use crate::qlib::linux_def::STOP_MASK;
use crate::qlib::linux_def::SigAct;
use crate::qlib::linux_def::SigFlag;
use crate::qlib::linux_def::Signal;
use crate::qlib::linux_def::SignalInfo;
use crate::qlib::linux_def::SignalSet;
use crate::qlib::linux_def::UNMASKABLE_MASK;
use crate::threadmgr::task_exit::TaskExitState;
use crate::threadmgr::task_stop::TaskStopType;
use crate::threadmgr::thread::KillInfo;
use crate::threadmgr::thread::Thread;
use crate::threadmgr::thread::ThreadInternal;
use crate::threadmgr::thread::ThreadView;
use crate::threadmgr::thread_group::ActOf;
use crate::threadmgr::thread_group::GroupStopState;
use crate::threadmgr::thread_group::HasThread;
use crate::threadmgr::thread_group::PendingCount;
use crate::threadmgr::thread_group::TaskSet;
use crate::threadmgr::thread_group::TaskSetWf;
use crate::threadmgr::thread_group::ThreadGroup;
use crate::threadmgr::thread_group::ThreadGroupInternal;
use crate::threadmgr::thread_group::ThreadGroupView;
use crate::threadmgr::thread_group::lemma_counts_bounded;
use crate::threadmgr::thread_group::lemma_counts_same_flags;

verus! {

/// What the kernel does with a delivered signal.
#[derive(Clone, Copy, Default)]
pub struct SignalAction {}

impl SignalAction {
    /// End the thread group.
    pub const TERM: u64 = 0;
    /// End the thread group and dump core.
    pub const CORE: u64 = 1;
    /// Stop the thread group.
    pub const STOP: u64 = 2;
    /// Do nothing.
    pub const IGNORE: u64 = 3;
    /// Run the handler that the group has set.
    pub const HANDLER: u64 = 4;
}

/// The default action of each signal from 0 to 31, by its number.
pub const DEFAULT_ACTION: [u64; 32] = [
    SignalAction::IGNORE,
    SignalAction::TERM,
    SignalAction::TERM,
    SignalAction::CORE,
    SignalAction::CORE,
    SignalAction::CORE,
    SignalAction::CORE,
    SignalAction::CORE,
    SignalAction::CORE,
    SignalAction::TERM,
    SignalAction::TERM,
    SignalAction::CORE,
    SignalAction::TERM,
    SignalAction::TERM,
    SignalAction::TERM,
    SignalAction::TERM,
    SignalAction::TERM,
    SignalAction::IGNORE,
    SignalAction::IGNORE,
    SignalAction::STOP,
    SignalAction::STOP,
    SignalAction::STOP,
    SignalAction::STOP,
    SignalAction::IGNORE,
    SignalAction::CORE,
    SignalAction::CORE,
    SignalAction::TERM,
    SignalAction::TERM,
    SignalAction::IGNORE,
    SignalAction::TERM,
    SignalAction::CORE,
    SignalAction::CORE,
];

/// The standard signals whose default action dumps core.
pub open spec fn CoreSignals() -> Set<int> {
    set![3, 4, 5, 6, 7, 8, 11, 24, 25, 30, 31]
}

/// The standard signals that are ignored by default.
pub open spec fn IgnoredSignals() -> Set<int> {
    set![17, 18, 23, 28]
}

/// The signals whose default action stops the thread group.
pub open spec fn StopSignals() -> Set<int> {
    set![19, 20, 21, 22]
}

/// The default action of standard signal `signo`.
pub open spec fn DefaultActionOf(signo: int) -> u64 {
    if signo == 0 || IgnoredSignals().contains(signo) {
        SignalAction::IGNORE
    } else if CoreSignals().contains(signo) {
        SignalAction::CORE
    } else if StopSignals().contains(signo) {
        SignalAction::STOP
    } else {
        SignalAction::TERM
    }
}

/// What signal `signo` does under an action with handler `handler`.
///
/// `SIGSTOP` stops and `SIGKILL` terminates whatever the handler; signal 0
/// is ignored. Else 0 as handler asks for the default action, which for a
/// real-time signal is to run the handler; 1 ignores; any other value is a
/// handler's address.
pub open spec fn ActionOf(signo: int, handler: u64) -> u64 {
    if signo == Signal::SIGSTOP {
        SignalAction::STOP
    } else if signo == Signal::SIGKILL {
        SignalAction::TERM
    } else if signo == 0 {
        SignalAction::IGNORE
    } else if handler == SigAct::SIGNAL_ACT_DEFAULT {
        if signo >= 32 {
            SignalAction::HANDLER
        } else {
            DefaultActionOf(signo)
        }
    } else if handler == SigAct::SIGNAL_ACT_IGNORE {
        SignalAction::IGNORE
    } else {
        SignalAction::HANDLER
    }
}

/// Decides what to do with signal `sig` under action `act`.
pub fn ComputeAction(sig: Signal, act: &SigAct) -> (r: u64)
    requires
        act.handler == SigAct::SIGNAL_ACT_DEFAULT ==> sig.0 >= 0,
    ensures
        r == ActionOf(sig.0 as int, act.handler),
        sig.0 == 0 ==> r == SignalAction::IGNORE,
{
    if sig.0 == Signal::SIGSTOP {
        SignalAction::STOP
    } else if sig.0 == Signal::SIGKILL {
        SignalAction::TERM
    } else if sig.0 == 0 {
        SignalAction::IGNORE
    } else if act.handler == SigAct::SIGNAL_ACT_DEFAULT {
        if sig.0 >= 32 {
            return SignalAction::HANDLER;
        }
        DEFAULT_ACTION[sig.0 as usize]
    } else if act.handler == SigAct::SIGNAL_ACT_IGNORE {
        SignalAction::IGNORE
    } else {
        SignalAction::HANDLER
    }
}


/// The signal that `dequeueSignalLocked` hands out: the thread's own first,
/// else the group's.
pub open spec fn DequeuedSignal(own: PendingView, group: PendingView, mask: SignalSet) -> Option<SignalInfo> {
    if own.front(mask) is Some {
        own.front(mask)
    } else {
        group.front(mask)
    }
}

/// The group's queues after `dequeueSignalLocked`: touched only where the
/// thread's own queues had nothing to hand out.
pub open spec fn GroupAfterDeque(own: PendingView, group: PendingView, mask: SignalSet) -> PendingView {
    if own.front(mask) is Some {
        group
    } else {
        group.deque(mask)
    }
}

/// Whether a thread that joins the stop completes it: the thread had not
/// joined before, it is the last one awaited, and the stop was not complete
/// already.
pub open spec fn CompletesStop(acknowledged: bool, gs: GroupStopState) -> bool {
    !acknowledged && gs.groupStopPendingCount == 1 && !gs.groupStopComplete
}

/// The group's stop state after a thread has joined the stop.
pub open spec fn AfterParticipation(acknowledged: bool, gs: GroupStopState) -> GroupStopState {
    if acknowledged {
        gs
    } else if CompletesStop(acknowledged, gs) {
        GroupStopState {
            groupStopPendingCount: 0,
            groupStopComplete: true,
            groupStopWaitable: true,
            groupContNotify: false,
            groupContWaitable: false,
            ..gs
        }
    } else {
        GroupStopState { groupStopPendingCount: (gs.groupStopPendingCount - 1) as i32, ..gs }
    }
}

impl ThreadInternal {
    /// Takes a pending signal that `mask` does not block: from the thread's
    /// own queues if they hold one, else from the queues of its group.
    pub fn dequeueSignalLocked(&mut self, group: &mut PendingSignals, mask: SignalSet) -> (r: Option<SignalInfo>)
        requires
            old(self)@.wf(),
            old(group)@.wf(),
        ensures
            r == DequeuedSignal(old(self)@.pendingSignals, old(group)@, mask),
            final(self)@ == (ThreadView { pendingSignals: old(self)@.pendingSignals.deque(mask), ..old(self)@ }),
            final(group)@ == GroupAfterDeque(old(self)@.pendingSignals, old(group)@, mask),
            final(self)@.wf(),
            final(group)@.wf(),
    {
        let info = self.pendingSignals.Deque(mask);
        match info {
            Some(si) => {
                return Some(si);
            },
            None => {},
        }
        group.Deque(mask)
    }

    /// Records that the thread has joined the group stop in progress, after
    /// its `groupStopPending` was cleared. Returns true if that completes
    /// the stop, so that the caller must tell the parent of the group's
    /// leader.
    pub fn participateGroupStopLocked(&mut self, gs: &mut GroupStopState) -> (r: bool)
        requires
            !old(self)@.groupStopAcknowledged ==> old(gs).groupStopPendingCount > i32::MIN,
        ensures
            r == CompletesStop(old(self)@.groupStopAcknowledged, *old(gs)),
            *final(gs) == AfterParticipation(old(self)@.groupStopAcknowledged, *old(gs)),
            final(self)@ == (ThreadView { groupStopAcknowledged: true, ..old(self)@ }),
    {
        if self.groupStopAcknowledged {
            return false;
        }
        self.groupStopAcknowledged = true;
        gs.groupStopPendingCount = gs.groupStopPendingCount - 1;
        if gs.groupStopPendingCount != 0 {
            return false;
        }
        if gs.groupStopComplete {
            return false;
        }
        gs.groupStopComplete = true;
        gs.groupStopWaitable = true;
        gs.groupContNotify = false;
        gs.groupContWaitable = false;
        true
    }

    /// Tells the waiters on the thread's signal queue of `sig`, and says
    /// whether the thread should be interrupted to take it.
    pub fn canReceiveSignalLocked(&mut self, sig: Signal) -> (r: bool)
        requires
            sig.valid(),
        ensures
            r == old(self)@.canReceive(sig.0 as int),
            final(self)@ == old(self)@.notified(sig.0 as int),
    {
        let bit = SignalSet::New(sig).0;
        self.SignalQueue.Notify(bit);
        if self.signalMask.0 & bit != 0 {
            return false;
        }
        if self.stop.is_some() {
            return false;
        }
        if self.Interrupted(false) {
            return false;
        }
        true
    }
}

impl ThreadView {
    /// The thread after every waiting instance of `signo` has been dropped.
    pub open spec fn discard(self, signo: int) -> ThreadView {
        ThreadView { pendingSignals: self.pendingSignals.discard(signo), ..self }
    }

    /// The thread after its group's stop has ended: marked as pending
    /// again, and let go if the group stop held it.
    pub open spec fn endGroupStop(self) -> ThreadView {
        ThreadView {
            groupStopPending: true,
            stop: if self.stop is Some && self.stop->0.Type == TaskStopType::GROUPSTOP {
                None
            } else {
                self.stop
            },
            ..self
        }
    }

    /// The thread after a group stop has begun: a live thread must join it
    /// and is interrupted; another one has nothing pending.
    pub open spec fn beginGroupStop(self) -> ThreadView {
        if self.live() {
            ThreadView { groupStopPending: true, groupStopAcknowledged: false, interruptPending: true, ..self }
        } else {
            ThreadView { groupStopPending: false, ..self }
        }
    }
}

/// The first position at or after `from` of a thread that can receive
/// `signo`; the number of threads if there is none.
pub open spec fn FirstReceiver(tasks: Seq<ThreadView>, signo: int, from: int) -> int
    decreases tasks.len() - from,
{
    if from < 0 || from >= tasks.len() {
        tasks.len() as int
    } else if tasks[from].canReceive(signo) {
        from
    } else {
        FirstReceiver(tasks, signo, from + 1)
    }
}

/// How many of the threads are live.
pub open spec fn LiveCount(s: Seq<ThreadView>) -> int
    decreases s.len(),
{
    if s.len() == 0 {
        0
    } else {
        LiveCount(s.drop_last()) + if s.last().live() {
            1int
        } else {
            0int
        }
    }
}

impl ThreadGroupView {
    /// The group after every waiting instance of `signo` has been dropped
    /// from its queues and from those of its threads.
    pub open spec fn discardSpecific(self, signo: int) -> ThreadGroupView {
        ThreadGroupView {
            pendingSignals: self.pendingSignals.discard(signo),
            tasks: Seq::new(self.tasks.len(), |i: int| self.tasks[i].discard(signo)),
            ..self
        }
    }

    /// The group after every waiting stop signal has been dropped.
    pub open spec fn discardStops(self) -> ThreadGroupView {
        self.discardSpecific(19).discardSpecific(20).discardSpecific(21).discardSpecific(22)
    }

    /// Whether a group stop is in progress or complete.
    pub open spec fn stopping(self) -> bool {
        self.groupStop.groupStopPendingCount != 0 || self.groupStop.groupStopComplete
    }

    /// The group after `endGroupStopLocked(broadcast)`.
    ///
    /// Waiting stop signals are dropped, and a stop signal that was taken
    /// from a queue before counts as dequeued no more, so that the stop it
    /// would begin is given up. If a stop was in progress or complete,
    /// every thread is marked and let go of the group stop, the stop state
    /// is cleared, and with `broadcast` the continue is left for a
    /// continuing thread to announce: interrupted if the stop had not
    /// completed.
    #[verifier::opaque]
    pub open spec fn endGroupStop(self, broadcast: bool) -> ThreadGroupView {
        let g = self.discardStops();
        if !g.stopping() {
            ThreadGroupView { groupStop: GroupStopState { groupStopDequeued: false, ..g.groupStop }, ..g }
        } else {
            ThreadGroupView {
                tasks: Seq::new(g.tasks.len(), |i: int| g.tasks[i].endGroupStop()),
                groupStop: GroupStopState {
                    groupStopPendingCount: 0,
                    groupStopComplete: false,
                    groupStopDequeued: false,
                    groupStopSignal: Signal(0),
                    groupStopWaitable: false,
                    groupContNotify: if broadcast {
                        true
                    } else {
                        g.groupStop.groupContNotify
                    },
                    groupContInterrupted: if broadcast {
                        !g.groupStop.groupStopComplete
                    } else {
                        g.groupStop.groupContInterrupted
                    },
                    groupContWaitable: if broadcast {
                        true
                    } else {
                        g.groupStop.groupContWaitable
                    },
                },
                ..g
            }
        }
    }

    /// The group after `SIGKILL` has been sent to it: it is exiting, with
    /// the status of a kill unless it was exiting already, and every thread
    /// is killed.
    pub open spec fn killGroup(self) -> ThreadGroupView {
        ThreadGroupView {
            exiting: true,
            exitStatus: if self.exiting {
                self.exitStatus
            } else {
                ExitStatus { Code: 0, Signo: Signal::SIGKILL }
            },
            tasks: Seq::new(self.tasks.len(), |i: int| self.tasks[i].kill()),
            ..self
        }
    }

    /// What sending `signo` does to the group whether or not the signal is
    /// then queued: a stop signal drops every waiting `SIGCONT`, `SIGCONT`
    /// ends the group stop, `SIGKILL` kills the group; others do nothing.
    #[verifier::opaque]
    pub open spec fn applySideEffects(self, signo: int) -> ThreadGroupView {
        if StopSignals().contains(signo) {
            self.discardSpecific(Signal::SIGCONT as int)
        } else if signo == Signal::SIGCONT {
            self.endGroupStop(true)
        } else if signo == Signal::SIGKILL {
            self.killGroup()
        } else {
            self
        }
    }

    /// The thread that `findSignalReceiverLocked` picks for `signo`: the
    /// first in the group that can receive it.
    pub open spec fn findReceiver(self, signo: int) -> Option<usize> {
        let k = FirstReceiver(self.tasks, signo, 0);
        if k < self.tasks.len() {
            Some(k as usize)
        } else {
            None
        }
    }

    /// The group after the search for a receiver of `signo`: the signal
    /// queues of the threads looked at, up to the one picked, have been
    /// told of the signal.
    pub open spec fn afterFind(self, signo: int) -> ThreadGroupView {
        let k = FirstReceiver(self.tasks, signo, 0);
        ThreadGroupView {
            tasks: Seq::new(
                self.tasks.len(),
                |i: int|
                    if i <= k {
                        self.tasks[i].notified(signo)
                    } else {
                        self.tasks[i]
                    },
            ),
            ..self
        }
    }

    /// The group after the thread picked for `signo`, if any, has been
    /// interrupted.
    #[verifier::opaque]
    pub open spec fn wakeReceiver(self, signo: int) -> ThreadGroupView {
        let g = self.afterFind(signo);
        match self.findReceiver(signo) {
            Some(k) => g.withTask(k as int, g.tasks[k as int].interrupt()),
            None => g,
        }
    }

    /// Threads that differ from those of `self` in nothing that well
    /// formedness or the stop counts depend on keep both.
    pub proof fn lemma_same_flags_wf(self, n: ThreadGroupView)
        requires
            self.wf(),
            n.pendingSignals.wf(),
            n.actions.len() == 65,
            n.tasks.len() == self.tasks.len(),
            n.leader == self.leader,
            n.groupStop.groupStopPendingCount == self.groupStop.groupStopPendingCount,
            forall|i: int|
                0 <= i < n.tasks.len() ==> {
                    &&& (#[trigger] n.tasks[i]).wf()
                    &&& n.tasks[i].groupStopPending == self.tasks[i].groupStopPending
                    &&& n.tasks[i].groupStopAcknowledged == self.tasks[i].groupStopAcknowledged
                },
        ensures
            n.wf(),
            self.countExact() ==> n.countExact(),
    {
        lemma_counts_same_flags(n.tasks, self.tasks);
    }

    /// `discardSpecific` keeps the group well formed and the stop counts
    /// as they were.
    pub proof fn lemma_discard_wf(self, signo: int)
        requires
            self.wf(),
        ensures
            self.discardSpecific(signo).wf(),
            self.countExact() ==> self.discardSpecific(signo).countExact(),
    {
        let n = self.discardSpecific(signo);
        self.pendingSignals.lemma_discard_wf(signo);
        assert forall|i: int| 0 <= i < n.tasks.len() implies (#[trigger] n.tasks[i]).wf() by {
            assert(self.tasks[i].wf());
            self.tasks[i].pendingSignals.lemma_discard_wf(signo);
        }
        self.lemma_same_flags_wf(n);
    }

    /// `endGroupStop` keeps the group well formed.
    pub proof fn lemma_end_group_stop_wf(self, broadcast: bool)
        requires
            self.wf(),
        ensures
            self.endGroupStop(broadcast).wf(),
    {
        reveal(ThreadGroupView::endGroupStop);
        self.lemma_discard_wf(19);
        self.discardSpecific(19).lemma_discard_wf(20);
        self.discardSpecific(19).discardSpecific(20).lemma_discard_wf(21);
        self.discardSpecific(19).discardSpecific(20).discardSpecific(21).lemma_discard_wf(22);
        let g = self.discardStops();
        let n = self.endGroupStop(broadcast);
        if g.stopping() {
            assert forall|i: int| 0 <= i < n.tasks.len() implies (#[trigger] n.tasks[i]).wf() by {
                assert(g.tasks[i].wf());
            }
            lemma_counts_bounded(n.tasks);
        } else {
            g.lemma_same_flags_wf(n);
        }
    }

    /// `killGroup` keeps the group well formed and the stop counts as they
    /// were.
    pub proof fn lemma_kill_wf(self)
        requires
            self.wf(),
        ensures
            self.killGroup().wf(),
            self.countExact() ==> self.killGroup().countExact(),
    {
        let n = self.killGroup();
        assert forall|i: int| 0 <= i < n.tasks.len() implies (#[trigger] n.tasks[i]).wf() by {
            assert(self.tasks[i].wf());
            self.tasks[i].pendingSignals.lemma_enque_wf(KillInfo(), None);
        }
        self.lemma_same_flags_wf(n);
    }

    /// `applySideEffects` keeps the group well formed.
    pub proof fn lemma_side_effects_wf(self, signo: int)
        requires
            self.wf(),
        ensures
            self.applySideEffects(signo).wf(),
            self.applySideEffects(signo).tasks.len() == self.tasks.len(),
    {
        reveal(ThreadGroupView::applySideEffects);
        reveal(ThreadGroupView::endGroupStop);
        self.lemma_discard_wf(Signal::SIGCONT as int);
        self.lemma_end_group_stop_wf(true);
        self.lemma_kill_wf();
    }

    /// The search for a receiver keeps the group well formed and the stop
    /// counts as they were, and so does waking the thread found.
    pub proof fn lemma_wake_wf(self, signo: int)
        requires
            self.wf(),
        ensures
            self.afterFind(signo).wf(),
            self.wakeReceiver(signo).wf(),
            self.countExact() ==> self.wakeReceiver(signo).countExact(),
            self.findReceiver(signo) matches Some(k) ==> k < self.tasks.len(),
    {
        reveal(ThreadGroupView::wakeReceiver);
        lemma_first_receiver(self.tasks, signo, 0);
        let g = self.afterFind(signo);
        assert forall|i: int| 0 <= i < g.tasks.len() implies (#[trigger] g.tasks[i]).wf() by {
            assert(self.tasks[i].wf());
        }
        self.lemma_same_flags_wf(g);
        let n = self.wakeReceiver(signo);
        match self.findReceiver(signo) {
            Some(k) => {
                assert(n.tasks == g.tasks.update(k as int, g.tasks[k as int].interrupt()));
            },
            None => {
                assert(n == g);
            },
        }
        assert forall|i: int| 0 <= i < n.tasks.len() implies (#[trigger] n.tasks[i]).wf() by {
            assert(g.tasks[i].wf());
        }
        self.lemma_same_flags_wf(n);
    }
}

/// `FirstReceiver` finds a thread that can receive the signal, and passes
/// over none that can.
pub proof fn lemma_first_receiver(tasks: Seq<ThreadView>, signo: int, from: int)
    requires
        0 <= from <= tasks.len(),
    ensures
        from <= FirstReceiver(tasks, signo, from) <= tasks.len(),
        FirstReceiver(tasks, signo, from) < tasks.len() ==> tasks[FirstReceiver(tasks, signo, from)].canReceive(signo),
        forall|j: int| from <= j < FirstReceiver(tasks, signo, from) ==> !(#[trigger] tasks[j]).canReceive(signo),
    decreases tasks.len() - from,
{
    if from < tasks.len() && !tasks[from].canReceive(signo) {
        lemma_first_receiver(tasks, signo, from + 1);
    }
}

impl ThreadGroupInternal {
    /// Drops every waiting instance of `sig` from the queues of the group
    /// and of its threads.
    pub fn discardSpecificLocked(&mut self, sig: Signal)
        requires
            old(self)@.wf(),
            sig.valid(),
        ensures
            final(self)@ == old(self)@.discardSpecific(sig.0 as int),
            final(self)@.wf(),
            old(self)@.countExact() ==> final(self)@.countExact(),
    {
        proof {
            old(self)@.lemma_discard_wf(sig.0 as int);
        }
        self.pendingSignals.Discard(sig);
        let n = self.tasks.len();
        let mut i: usize = 0;
        while i < n
            invariant
                i <= n,
                n == self.tasks@.len(),
                n == old(self).tasks@.len(),
                sig.valid(),
                old(self)@.wf(),
                self@ == (ThreadGroupView {
                    tasks: self@.tasks,
                    pendingSignals: old(self)@.pendingSignals.discard(sig.0 as int),
                    ..old(self)@
                }),
                forall|j: int| 0 <= j < i ==> self@.tasks[j] == old(self)@.tasks[j].discard(sig.0 as int),
                forall|j: int| i <= j < n ==> self@.tasks[j] == old(self)@.tasks[j],
            decreases n - i,
        {
            let ghost prev = self@.tasks;
            assert(prev[i as int] == old(self)@.tasks[i as int]);
            assert(old(self)@.tasks[i as int].wf());
            self.tasks[i].pendingSignals.Discard(sig);
            assert(self@.tasks =~= prev.update(i as int, prev[i as int].discard(sig.0 as int)));
            i = i + 1;
        }
        assert(self@.tasks =~= old(self)@.discardSpecific(sig.0 as int).tasks);
    }

    /// Applies what sending `sig` does to the group even if the signal is
    /// then discarded.
    pub fn applySignalSideEffectsLocked(&mut self, sig: Signal)
        requires
            old(self)@.wf(),
            sig.valid(),
        ensures
            final(self)@ == old(self)@.applySideEffects(sig.0 as int),
            final(self)@.wf(),
    {
        proof {
            reveal(ThreadGroupView::applySideEffects);
            old(self)@.lemma_side_effects_wf(sig.0 as int);
        }
        let bit = SignalSet::New(sig).0;
        proof {
            lemma_stop_mask(sig.0 as int);
        }
        if bit & STOP_MASK != 0 {
            self.discardSpecificLocked(Signal(Signal::SIGCONT));
        } else if sig.0 == Signal::SIGCONT {
            self.endGroupStopLocked(true);
        } else if sig.0 == Signal::SIGKILL {
            if !self.exiting {
                self.exiting = true;
                self.exitStatus = ExitStatus { Code: 0, Signo: Signal::SIGKILL };
            }
            let n = self.tasks.len();
            let mut i: usize = 0;
            while i < n
                invariant
                    i <= n,
                    n == self.tasks@.len(),
                    n == old(self).tasks@.len(),
                    old(self)@.wf(),
                    self@ == (ThreadGroupView {
                        tasks: self@.tasks,
                        exiting: true,
                        exitStatus: old(self)@.killGroup().exitStatus,
                        ..old(self)@
                    }),
                    forall|j: int| 0 <= j < i ==> self@.tasks[j] == old(self)@.tasks[j].kill(),
                    forall|j: int| i <= j < n ==> self@.tasks[j] == old(self)@.tasks[j],
                decreases n - i,
            {
                let ghost prev = self@.tasks;
                assert(prev[i as int] == old(self)@.tasks[i as int]);
                assert(old(self)@.tasks[i as int].wf());
                self.tasks[i].killLocked();
                assert(self@.tasks =~= prev.update(i as int, prev[i as int].kill()));
                i = i + 1;
            }
            assert(self@.tasks =~= old(self)@.killGroup().tasks);
        }
    }

    /// Finds a thread of the group that should be interrupted to receive
    /// `sig`: the first that can. The signal queue of each thread looked at
    /// is told of the signal.
    pub fn findSignalReceiverLocked(&mut self, sig: Signal) -> (r: Option<usize>)
        requires
            old(self)@.wf(),
            sig.valid(),
        ensures
            r == old(self)@.findReceiver(sig.0 as int),
            final(self)@ == old(self)@.afterFind(sig.0 as int),
            final(self)@.wf(),
            r matches Some(k) ==> k < old(self)@.tasks.len(),
    {
        proof {
            old(self)@.lemma_wake_wf(sig.0 as int);
        }
        let n = self.tasks.len();
        let mut i: usize = 0;
        while i < n
            invariant
                i <= n,
                n == self.tasks@.len(),
                n == old(self).tasks@.len(),
                sig.valid(),
                old(self)@.afterFind(sig.0 as int).wf(),
                self@ == (ThreadGroupView { tasks: self@.tasks, ..old(self)@ }),
                forall|j: int| 0 <= j < i ==> self@.tasks[j] == old(self)@.tasks[j].notified(sig.0 as int),
                forall|j: int| i <= j < n ==> self@.tasks[j] == old(self)@.tasks[j],
                FirstReceiver(old(self)@.tasks, sig.0 as int, i as int) == FirstReceiver(old(self)@.tasks, sig.0 as int, 0),
            decreases n - i,
        {
            let ghost prev = self@.tasks;
            assert(prev[i as int] == old(self)@.tasks[i as int]);
            let can = self.tasks[i].canReceiveSignalLocked(sig);
            assert(self@.tasks =~= prev.update(i as int, prev[i as int].notified(sig.0 as int)));
            if can {
                assert(self@.tasks =~= old(self)@.afterFind(sig.0 as int).tasks);
                return Some(i);
            }
            i = i + 1;
        }
        assert(self@.tasks =~= old(self)@.afterFind(sig.0 as int).tasks);
        None
    }

    /// Makes sure that the stop signals received so far neither hold the
    /// group stopped nor will stop it. With `broadcast`, the parent is to
    /// be told that the group continued.
    pub fn endGroupStopLocked(&mut self, broadcast: bool)
        requires
            old(self)@.wf(),
        ensures
            final(self)@ == old(self)@.endGroupStop(broadcast),
            final(self)@.wf(),
            !final(self)@.groupStop.groupStopDequeued,
    {
        proof {
            reveal(ThreadGroupView::endGroupStop);
            old(self)@.lemma_end_group_stop_wf(broadcast);
        }
        self.discardSpecificLocked(Signal(Signal::SIGSTOP));
        self.discardSpecificLocked(Signal(Signal::SIGTSTP));
        self.discardSpecificLocked(Signal(Signal::SIGTTIN));
        self.discardSpecificLocked(Signal(Signal::SIGTTOU));
        let ghost g = self@;
        assert(g == old(self)@.discardStops());
        // A stop that is about to begin for a stop signal dequeued before
        // sees from this that it has been called off.
        self.groupStop.groupStopDequeued = false;
        if self.groupStop.groupStopPendingCount == 0 && !self.groupStop.groupStopComplete {
            assert(self@.tasks =~= g.tasks);
            return ;
        }
        let n = self.tasks.len();
        let mut i: usize = 0;
        while i < n
            invariant
                i <= n,
                n == self.tasks@.len(),
                n == g.tasks.len(),
                self@ == (ThreadGroupView {
                    tasks: self@.tasks,
                    groupStop: GroupStopState { groupStopDequeued: false, ..g.groupStop },
                    ..g
                }),
                forall|j: int| 0 <= j < i ==> self@.tasks[j] == g.tasks[j].endGroupStop(),
                forall|j: int| i <= j < n ==> self@.tasks[j] == g.tasks[j],
            decreases n - i,
        {
            let ghost prev = self@.tasks;
            assert(prev[i as int] == g.tasks[i as int]);
            let held = match self.tasks[i].stop {
                Some(s) => s.IsGroupStop(),
                None => false,
            };
            self.tasks[i].groupStopPending = true;
            if held {
                self.tasks[i].endInternalStopLocked();
            }
            assert(self@.tasks =~= prev.update(i as int, prev[i as int].endGroupStop()));
            i = i + 1;
        }
        if broadcast {
            self.groupStop.groupContNotify = true;
            self.groupStop.groupContInterrupted = !self.groupStop.groupStopComplete;
            self.groupStop.groupContWaitable = true;
        }
        self.groupStop.groupStopSignal = Signal(0);
        self.groupStop.groupStopPendingCount = 0;
        self.groupStop.groupStopComplete = false;
        self.groupStop.groupStopWaitable = false;
        assert(self@.tasks =~= old(self)@.endGroupStop(broadcast).tasks);
    }
}

/// The bits of `STOP_MASK` are those of the four stop signals.
pub proof fn lemma_stop_mask(signo: int)
    requires
        0 < signo <= 64,
    ensures
        (Bit((signo - 1) as u64) & STOP_MASK != 0) <==> StopSignals().contains(signo),
        (Bit((signo - 1) as u64) & UNMASKABLE_MASK != 0) <==> (signo == Signal::SIGKILL || signo == Signal::SIGSTOP),
{
    let i = (signo - 1) as u64;
    assert(((1u64 << i) & 0x3c0000u64 != 0) <==> (i == 18 || i == 19 || i == 20 || i == 21)) by (bit_vector)
        requires
            i < 64,
    ;
    assert(((1u64 << i) & 0x40100u64 != 0) <==> (i == 8 || i == 18)) by (bit_vector)
        requires
            i < 64,
    ;
}


impl ThreadGroupView {
    /// Whether `n` has the threads of `self`, each with its identity: the
    /// same number of threads, the same leader, and for each thread the same
    /// id, user id, parent and exit state.
    pub open spec fn sameThreads(self, n: ThreadGroupView) -> bool {
        &&& n.tasks.len() == self.tasks.len()
        &&& n.leader == self.leader
        &&& forall|i: int|
            0 <= i < n.tasks.len() ==> {
                &&& (#[trigger] n.tasks[i]).id == self.tasks[i].id
                &&& n.tasks[i].uid == self.tasks[i].uid
                &&& n.tasks[i].parent == self.tasks[i].parent
                &&& n.tasks[i].exitState == self.tasks[i].exitState
            }
    }

    /// The group after the timer of a refused signal, if it had one, has
    /// been noted.
    pub open spec fn rejectTimer(self, timer: Option<IntervalTimer>) -> ThreadGroupView {
        match timer {
            Some(t) => ThreadGroupView { timerRejections: self.timerRejections.push(t), ..self },
            None => self,
        }
    }

    /// Whether a signal sent to thread `idx` is dropped at once: the action
    /// set for it ignores it, and neither the thread's mask nor the mask
    /// that a `sigtimedwait` has set aside blocks it.
    pub open spec fn discards(self, idx: int, signo: int) -> bool {
        let t = self.tasks[idx];
        &&& t.signalMask.0 & Bit((signo - 1) as u64) == 0
        &&& t.realSignalMask.0 & Bit((signo - 1) as u64) == 0
        &&& ActionOf(signo, ActOf(self.actions, signo).handler) == SignalAction::IGNORE
    }

    /// Whether the queue that a signal for thread `idx` goes to has room
    /// for it: the group's queue with `group`, else the thread's own.
    pub open spec fn hasRoom(self, idx: int, signo: int, group: bool) -> bool {
        if group {
            self.pendingSignals.accepts(signo)
        } else {
            self.tasks[idx].pendingSignals.accepts(signo)
        }
    }

    /// The group after `info` has been put in the queue it goes to.
    pub open spec fn enqueue(self, idx: int, info: SignalInfo, group: bool, timer: Option<IntervalTimer>) -> ThreadGroupView {
        if group {
            ThreadGroupView { pendingSignals: self.pendingSignals.enque(info, timer), ..self }
        } else {
            self.withTask(
                idx,
                ThreadView { pendingSignals: self.tasks[idx].pendingSignals.enque(info, timer), ..self.tasks[idx] },
            )
        }
    }

    /// The group after a receiver for the queued signal `signo` has been
    /// looked for and interrupted: thread `idx` if it can receive the
    /// signal, else, for a group signal, the first thread that can.
    #[verifier::opaque]
    pub open spec fn notifyReceiver(self, idx: int, signo: int, group: bool) -> ThreadGroupView {
        let t = self.tasks[idx];
        let g = self.withTask(idx, t.notified(signo));
        if t.canReceive(signo) {
            g.withTask(idx, t.notified(signo).interrupt())
        } else if group {
            g.wakeReceiver(signo)
        } else {
            g
        }
    }

    /// What `sendSignalTimerLocked` returns for a signal sent to thread
    /// `idx`.
    ///
    /// `ESRCH` if the thread is dead; success for signal 0; `EINVAL` for a
    /// number that is no signal; `EAGAIN` for a real-time signal that is
    /// not dropped at once and whose queue is full; else success.
    pub open spec fn sendResult(self, idx: int, info: SignalInfo, group: bool) -> Result<(), Error> {
        let signo = info.Signo as int;
        if self.tasks[idx].exitState == TaskExitState::TaskExitDead {
            Err(Error::SysError(SysErr::ESRCH))
        } else if signo == 0 {
            Ok(())
        } else if !(0 < signo <= 64) {
            Err(Error::SysError(SysErr::EINVAL))
        } else {
            let g = self.applySideEffects(signo);
            if !g.discards(idx, signo) && !g.hasRoom(idx, signo, group) && signo >= 32 {
                Err(Error::SysError(SysErr::EAGAIN))
            } else {
                Ok(())
            }
        }
    }

    /// The group after `sendSignalTimerLocked` for thread `idx`.
    ///
    /// Nothing changes for a dead thread, signal 0 or a number that is no
    /// signal. Else the side effects of the signal apply. Then the signal is
    /// dropped if the thread ignores it, or if its queue is full; a dropped
    /// signal's timer is noted as refused, but for a real-time signal whose
    /// queue is full. Else it is queued and a receiver is interrupted.
    pub open spec fn sendSignal(self, idx: int, info: SignalInfo, group: bool, timer: Option<IntervalTimer>) -> ThreadGroupView {
        let signo = info.Signo as int;
        if self.tasks[idx].exitState == TaskExitState::TaskExitDead || !(0 < signo <= 64) {
            self
        } else {
            let g = self.applySideEffects(signo);
            if g.discards(idx, signo) {
                g.rejectTimer(timer)
            } else if !g.hasRoom(idx, signo, group) {
                if signo >= 32 {
                    g
                } else {
                    g.rejectTimer(timer)
                }
            } else {
                g.enqueue(idx, info, group, timer).notifyReceiver(idx, signo, group)
            }
        }
    }

    /// The group after replacement receivers have been woken for each
    /// signal of `set` at position `from` or above, lowest first.
    pub open spec fn replaceReceivers(self, set: u64, from: int) -> ThreadGroupView
        decreases 64 - from,
    {
        if from < 0 || from >= 64 {
            self
        } else if set & Bit(from as u64) != 0 {
            self.wakeReceiver(from + 1).replaceReceivers(set, from + 1)
        } else {
            self.replaceReceivers(set, from + 1)
        }
    }

    /// The group after thread `idx` has set its mask to `mask`.
    ///
    /// `SIGKILL` and `SIGSTOP` are taken out of the mask. If the new mask
    /// blocks a signal that waits for the group, and the thread had been
    /// interrupted, a replacement receiver is woken for each such signal
    /// and the thread's interrupt is raised again. If the new mask lets
    /// through a signal that waits for the thread or the group, the thread
    /// interrupts itself.
    pub open spec fn setSignalMask(self, idx: int, mask: SignalSet) -> ThreadGroupView {
        let t = self.tasks[idx];
        let m = SignalSet(mask.0 & !UNMASKABLE_MASK);
        let blockedGroupPending = (m.0 & !t.signalMask.0) & self.pendingSignals.pendingSet.0;
        let unblockedPending = (t.signalMask.0 & !m.0) & (t.pendingSignals.pendingSet.0
            | self.pendingSignals.pendingSet.0);
        let t1 = ThreadView { signalMask: m, ..t };
        let g1 = if blockedGroupPending != 0 && t.interruptPending {
            let g = self.withTask(idx, ThreadView { interruptPending: false, ..t1 }).replaceReceivers(
                blockedGroupPending,
                0,
            );
            g.withTask(idx, g.tasks[idx].interrupt())
        } else {
            self.withTask(idx, t1)
        };
        if unblockedPending != 0 {
            g1.withTask(idx, g1.tasks[idx].interrupt())
        } else {
            g1
        }
    }

    /// Replacing a thread by one that is well formed and has its identity
    /// and its two stop flags keeps the group well formed and its threads
    /// the same.
    pub proof fn lemma_with_task(self, i: int, t: ThreadView)
        requires
            self.wf(),
            0 <= i < self.tasks.len(),
            t.wf(),
            t.id == self.tasks[i].id,
            t.uid == self.tasks[i].uid,
            t.parent == self.tasks[i].parent,
            t.exitState == self.tasks[i].exitState,
            t.groupStopPending == self.tasks[i].groupStopPending,
            t.groupStopAcknowledged == self.tasks[i].groupStopAcknowledged,
        ensures
            self.withTask(i, t).wf(),
            self.sameThreads(self.withTask(i, t)),
            self.countExact() ==> self.withTask(i, t).countExact(),
    {
        let n = self.withTask(i, t);
        assert forall|j: int| 0 <= j < n.tasks.len() implies (#[trigger] n.tasks[j]).wf() by {
            assert(self.tasks[j].wf());
        }
        self.lemma_same_flags_wf(n);
    }

    /// `sameThreads` carries over two steps.
    pub proof fn lemma_same_threads_trans(self, a: ThreadGroupView, b: ThreadGroupView)
        requires
            self.sameThreads(a),
            a.sameThreads(b),
        ensures
            self.sameThreads(b),
    {
        assert forall|i: int| 0 <= i < b.tasks.len() implies {
            &&& (#[trigger] b.tasks[i]).id == self.tasks[i].id
            &&& b.tasks[i].uid == self.tasks[i].uid
            &&& b.tasks[i].parent == self.tasks[i].parent
            &&& b.tasks[i].exitState == self.tasks[i].exitState
        } by {
            assert(a.tasks[i].id == self.tasks[i].id);
        }
    }

    /// The side effects of a signal keep the threads of the group.
    pub proof fn lemma_side_effects_threads(self, signo: int)
        requires
            self.wf(),
        ensures
            self.sameThreads(self.applySideEffects(signo)),
    {
        reveal(ThreadGroupView::applySideEffects);
        reveal(ThreadGroupView::endGroupStop);
        let a = self.discardSpecific(19);
        let b = a.discardSpecific(20);
        let c = b.discardSpecific(21);
        let d = c.discardSpecific(22);
        assert(self.sameThreads(a));
        assert(a.sameThreads(b));
        assert(b.sameThreads(c));
        assert(c.sameThreads(d));
        self.lemma_same_threads_trans(a, b);
        self.lemma_same_threads_trans(b, c);
        self.lemma_same_threads_trans(c, d);
        assert(d == self.discardStops());
        let e = self.endGroupStop(true);
        assert(d.sameThreads(e));
        self.lemma_same_threads_trans(d, e);
        assert(self.sameThreads(self.killGroup()));
        assert(self.sameThreads(self.discardSpecific(Signal::SIGCONT as int)));
    }

    /// Waking a receiver keeps the threads of the group.
    pub proof fn lemma_wake_threads(self, signo: int)
        requires
            self.wf(),
        ensures
            self.sameThreads(self.wakeReceiver(signo)),
    {
        reveal(ThreadGroupView::wakeReceiver);
        lemma_first_receiver(self.tasks, signo, 0);
        let g = self.afterFind(signo);
        assert(self.sameThreads(g));
        let n = self.wakeReceiver(signo);
        match self.findReceiver(signo) {
            Some(k) => {
                assert(n.tasks == g.tasks.update(k as int, g.tasks[k as int].interrupt()));
            },
            None => {
                assert(n == g);
            },
        }
        assert(g.sameThreads(n));
        self.lemma_same_threads_trans(g, n);
    }

    /// `sendSignal` keeps the group well formed and its threads the same.
    #[verifier::rlimit(50)]
    pub proof fn lemma_send_signal_wf(self, idx: int, info: SignalInfo, group: bool, timer: Option<IntervalTimer>)
        requires
            self.wf(),
            0 <= idx < self.tasks.len(),
        ensures
            self.sendSignal(idx, info, group, timer).wf(),
            self.sameThreads(self.sendSignal(idx, info, group, timer)),
    {
        let signo = info.Signo as int;
        if self.tasks[idx].exitState == TaskExitState::TaskExitDead || !(0 < signo <= 64) {
        } else {
            self.lemma_side_effects_wf(signo);
            self.lemma_side_effects_threads(signo);
            let g = self.applySideEffects(signo);
            assert(g.rejectTimer(timer).wf());
            assert(g.sameThreads(g.rejectTimer(timer)));
            self.lemma_same_threads_trans(g, g.rejectTimer(timer));
            if !g.discards(idx, signo) && g.hasRoom(idx, signo, group) {
                let q = g.enqueue(idx, info, group, timer);
                assert(g.tasks[idx].wf());
                if group {
                    g.pendingSignals.lemma_enque_wf(info, timer);
                    g.lemma_same_flags_wf(q);
                    assert(g.sameThreads(q));
                } else {
                    g.tasks[idx].pendingSignals.lemma_enque_wf(info, timer);
                    g.lemma_with_task(
                        idx,
                        ThreadView { pendingSignals: g.tasks[idx].pendingSignals.enque(info, timer), ..g.tasks[idx] },
                    );
                }
                q.lemma_notify_receiver_wf(idx, signo, group);
                self.lemma_same_threads_trans(g, q);
                self.lemma_same_threads_trans(q, q.notifyReceiver(idx, signo, group));
            }
        }
    }

    /// `notifyReceiver` keeps the group well formed, its threads the same
    /// and its stop counts as they were.
    pub proof fn lemma_notify_receiver_wf(self, idx: int, signo: int, group: bool)
        requires
            self.wf(),
            0 <= idx < self.tasks.len(),
        ensures
            self.notifyReceiver(idx, signo, group).wf(),
            self.sameThreads(self.notifyReceiver(idx, signo, group)),
            self.countExact() ==> self.notifyReceiver(idx, signo, group).countExact(),
    {
        reveal(ThreadGroupView::notifyReceiver);
        let t = self.tasks[idx];
        assert(t.wf());
        self.lemma_with_task(idx, t.notified(signo));
        let g = self.withTask(idx, t.notified(signo));
        if t.canReceive(signo) {
            g.lemma_with_task(idx, t.notified(signo).interrupt());
            let n = g.withTask(idx, t.notified(signo).interrupt());
            assert(n.tasks =~= self.withTask(idx, t.notified(signo).interrupt()).tasks);
            self.lemma_with_task(idx, t.notified(signo).interrupt());
        } else if group {
            g.lemma_wake_wf(signo);
            g.lemma_wake_threads(signo);
            self.lemma_same_threads_trans(g, g.wakeReceiver(signo));
        }
    }

    /// `replaceReceivers` keeps the group well formed, its threads the same
    /// and its stop counts as they were.
    pub proof fn lemma_replace_receivers_wf(self, set: u64, from: int)
        requires
            self.wf(),
        ensures
            self.replaceReceivers(set, from).wf(),
            self.sameThreads(self.replaceReceivers(set, from)),
            self.countExact() ==> self.replaceReceivers(set, from).countExact(),
        decreases 64 - from,
    {
        if from < 0 || from >= 64 {
        } else if set & Bit(from as u64) != 0 {
            self.lemma_wake_wf(from + 1);
            self.lemma_wake_threads(from + 1);
            let g = self.wakeReceiver(from + 1);
            g.lemma_replace_receivers_wf(set, from + 1);
            self.lemma_same_threads_trans(g, g.replaceReceivers(set, from + 1));
        } else {
            self.lemma_replace_receivers_wf(set, from + 1);
        }
    }

    /// `setSignalMask` keeps the group well formed, its threads the same
    /// and its stop counts as they were; the new mask blocks neither
    /// `SIGKILL` nor `SIGSTOP`.
    #[verifier::rlimit(50)]
    pub proof fn lemma_set_signal_mask_wf(self, idx: int, mask: SignalSet)
        requires
            self.wf(),
            0 <= idx < self.tasks.len(),
        ensures
            self.setSignalMask(idx, mask).wf(),
            self.sameThreads(self.setSignalMask(idx, mask)),
            self.countExact() ==> self.setSignalMask(idx, mask).countExact(),
            self.setSignalMask(idx, mask).tasks[idx].signalMask == SignalSet(mask.0 & !UNMASKABLE_MASK),
            self.setSignalMask(idx, mask).tasks[idx].pendingSignals == self.tasks[idx].pendingSignals,
            self.setSignalMask(idx, mask).tasks[idx].realSignalMask == self.tasks[idx].realSignalMask,
            self.setSignalMask(idx, mask).tasks[idx].exitState == self.tasks[idx].exitState,
            self.setSignalMask(idx, mask).tasks[idx].stop == self.tasks[idx].stop,
            self.setSignalMask(idx, mask).tasks[idx].savedSignalMask == self.tasks[idx].savedSignalMask,
            self.setSignalMask(idx, mask).tasks[idx].haveSavedSignalMask == self.tasks[idx].haveSavedSignalMask,
            self.setSignalMask(idx, mask).exiting == self.exiting,
            self.setSignalMask(idx, mask).execing == self.execing,
            self.setSignalMask(idx, mask).pendingSignals == self.pendingSignals,
            self.setSignalMask(idx, mask).actions == self.actions,
            self.setSignalMask(idx, mask).groupStop == self.groupStop,
    {
        let t = self.tasks[idx];
        assert(t.wf());
        let m = SignalSet(mask.0 & !UNMASKABLE_MASK);
        let mv = mask.0;
        assert((mv & !0x40100u64) & 0x40100u64 == 0) by (bit_vector);
        let blockedGroupPending = (m.0 & !t.signalMask.0) & self.pendingSignals.pendingSet.0;
        let t1 = ThreadView { signalMask: m, ..t };
        let g1 = if blockedGroupPending != 0 && t.interruptPending {
            let t2 = ThreadView { interruptPending: false, ..t1 };
            self.lemma_with_task(idx, t2);
            let s = self.withTask(idx, t2);
            s.lemma_replace_receivers_wf(blockedGroupPending, 0);
            let g = s.replaceReceivers(blockedGroupPending, 0);
            self.lemma_same_threads_trans(s, g);
            assert(g.tasks[idx].wf());
            g.lemma_with_task(idx, g.tasks[idx].interrupt());
            self.lemma_same_threads_trans(g, g.withTask(idx, g.tasks[idx].interrupt()));
            g.lemma_mask_kept(s, blockedGroupPending, 0, idx);
            g.withTask(idx, g.tasks[idx].interrupt())
        } else {
            self.lemma_with_task(idx, t1);
            self.withTask(idx, t1)
        };
        assert(g1.tasks[idx].wf());
        g1.lemma_with_task(idx, g1.tasks[idx].interrupt());
        self.lemma_same_threads_trans(g1, g1.withTask(idx, g1.tasks[idx].interrupt()));
    }

    /// Waking replacement receivers changes no thread's mask.
    pub proof fn lemma_mask_kept(self, s: ThreadGroupView, set: u64, from: int, idx: int)
        requires
            s.wf(),
            0 <= idx < s.tasks.len(),
            self == s.replaceReceivers(set, from),
        ensures
            self.tasks.len() == s.tasks.len(),
            self.tasks[idx].signalMask == s.tasks[idx].signalMask,
            self.tasks[idx].pendingSignals == s.tasks[idx].pendingSignals,
            self.tasks[idx].realSignalMask == s.tasks[idx].realSignalMask,
            self.tasks[idx].exitState == s.tasks[idx].exitState,
            self.tasks[idx].stop == s.tasks[idx].stop,
            self.tasks[idx].savedSignalMask == s.tasks[idx].savedSignalMask,
            self.tasks[idx].haveSavedSignalMask == s.tasks[idx].haveSavedSignalMask,
            self.exiting == s.exiting,
            self.execing == s.execing,
            self.pendingSignals == s.pendingSignals,
            self.actions == s.actions,
            self.groupStop == s.groupStop,
        decreases 64 - from,
    {
        reveal(ThreadGroupView::wakeReceiver);
        if from < 0 || from >= 64 {
        } else if set & Bit(from as u64) != 0 {
            s.lemma_wake_wf(from + 1);
            lemma_first_receiver(s.tasks, from + 1, 0);
            let g = s.wakeReceiver(from + 1);
            self.lemma_mask_kept(g, set, from + 1, idx);
        } else {
            self.lemma_mask_kept(s, set, from + 1, idx);
        }
    }
}


impl ThreadGroupInternal {
    /// Interrupts thread `idx`.
    fn interruptAt(&mut self, idx: usize)
        requires
            idx < old(self)@.tasks.len(),
        ensures
            final(self)@ == old(self)@.withTask(idx as int, old(self)@.tasks[idx as int].interrupt()),
    {
        self.tasks[idx].interrupt();
        assert(self@.tasks =~= old(self)@.tasks.update(idx as int, old(self)@.tasks[idx as int].interrupt()));
    }

    /// Takes the interrupt of thread `idx`, if one waits.
    fn consumeInterruptAt(&mut self, idx: usize) -> (r: bool)
        requires
            idx < old(self)@.tasks.len(),
        ensures
            r == old(self)@.tasks[idx as int].interruptPending,
            final(self)@ == old(self)@.withTask(
                idx as int,
                ThreadView { interruptPending: false, ..old(self)@.tasks[idx as int] },
            ),
    {
        let r = self.tasks[idx].Interrupted(true);
        assert(self@.tasks =~= old(self)@.tasks.update(
            idx as int,
            ThreadView { interruptPending: false, ..old(self)@.tasks[idx as int] },
        ));
        r
    }

    /// Puts `mask` in force for thread `idx`, as it is.
    fn storeMaskAt(&mut self, idx: usize, mask: SignalSet)
        requires
            idx < old(self)@.tasks.len(),
        ensures
            final(self)@ == old(self)@.withTask(
                idx as int,
                ThreadView { signalMask: mask, ..old(self)@.tasks[idx as int] },
            ),
    {
        self.tasks[idx].signalMask = mask;
        assert(self@.tasks =~= old(self)@.tasks.update(
            idx as int,
            ThreadView { signalMask: mask, ..old(self)@.tasks[idx as int] },
        ));
    }

    /// Notes the timer of a refused signal, if it had one.
    fn rejectTimerLocked(&mut self, timer: Option<IntervalTimer>)
        ensures
            final(self)@ == old(self)@.rejectTimer(timer),
    {
        match timer {
            Some(t) => {
                self.timerRejections.push(t);
            },
            None => {},
        }
    }

    /// Queues `info` for thread `idx`, or with `group` for the group, if
    /// the queue has room; says whether it had.
    fn enqueueLocked(&mut self, idx: usize, info: SignalInfo, group: bool, timer: Option<IntervalTimer>) -> (r: bool)
        requires
            old(self)@.wf(),
            idx < old(self)@.tasks.len(),
            Signal(info.Signo).valid(),
        ensures
            r == old(self)@.hasRoom(idx as int, info.Signo as int, group),
            r ==> final(self)@ == old(self)@.enqueue(idx as int, info, group, timer),
            !r ==> final(self)@ == old(self)@,
            final(self)@.wf(),
            old(self)@.sameThreads(final(self)@),
    {
        let ghost g = self@;
        assert(g.tasks[idx as int].wf());
        let res = if !group {
            let r = self.tasks[idx].pendingSignals.Enque(info, timer);
            assert(self@.tasks =~= g.tasks.update(
                idx as int,
                ThreadView { pendingSignals: g.tasks[idx as int].pendingSignals.enque(info, timer), ..g.tasks[idx as int] },
            ));
            r
        } else {
            let r = self.pendingSignals.Enque(info, timer);
            assert(self@.tasks =~= g.tasks);
            r
        };
        proof {
            if group {
                g.pendingSignals.lemma_enque_wf(info, timer);
                g.lemma_same_flags_wf(self@);
            } else {
                g.tasks[idx as int].pendingSignals.lemma_enque_wf(info, timer);
                g.lemma_with_task(
                    idx as int,
                    ThreadView { pendingSignals: g.tasks[idx as int].pendingSignals.enque(info, timer), ..g.tasks[idx as int] },
                );
            }
        }
        proof {
            if !g.hasRoom(idx as int, info.Signo as int, group) {
                assert(self@.tasks =~= g.tasks);
            }
        }
        match res {
            Ok(b) => b,
            Err(_) => false,
        }
    }

    /// Interrupts the first thread of the group that can receive `sig`,
    /// if there is one.
    pub fn wakeReceiverLocked(&mut self, sig: Signal)
        requires
            old(self)@.wf(),
            sig.valid(),
        ensures
            final(self)@ == old(self)@.wakeReceiver(sig.0 as int),
            final(self)@.wf(),
    {
        proof {
            reveal(ThreadGroupView::wakeReceiver);
            old(self)@.lemma_wake_wf(sig.0 as int);
        }
        let nt = self.findSignalReceiverLocked(sig);
        match nt {
            Some(k) => {
                self.interruptAt(k);
            },
            None => {},
        }
    }

    /// Looks for a receiver of the queued signal `sig` and interrupts it:
    /// thread `idx` if it can receive the signal, else, for a group signal,
    /// the first thread that can.
    fn notifyReceiverLocked(&mut self, idx: usize, sig: Signal, group: bool)
        requires
            old(self)@.wf(),
            idx < old(self)@.tasks.len(),
            sig.valid(),
        ensures
            final(self)@ == old(self)@.notifyReceiver(idx as int, sig.0 as int, group),
            final(self)@.wf(),
    {
        proof {
            reveal(ThreadGroupView::notifyReceiver);
            old(self)@.lemma_notify_receiver_wf(idx as int, sig.0 as int, group);
            assert(old(self)@.tasks[idx as int].wf());
            old(self)@.lemma_with_task(idx as int, old(self)@.tasks[idx as int].notified(sig.0 as int));
        }
        let can = self.tasks[idx].canReceiveSignalLocked(sig);
        assert(self@.tasks =~= old(self)@.tasks.update(idx as int, old(self)@.tasks[idx as int].notified(sig.0 as int)));
        if can {
            self.interruptAt(idx);
            return ;
        }
        if group {
            self.wakeReceiverLocked(sig);
        }
    }

    /// Wakes a replacement receiver for each signal of `set`, lowest first.
    fn replaceReceiversLocked(&mut self, set: u64)
        requires
            old(self)@.wf(),
        ensures
            final(self)@ == old(self)@.replaceReceivers(set, 0),
            final(self)@.wf(),
    {
        let mut i: u64 = 0;
        while i < 64
            invariant
                i <= 64,
                self@.wf(),
                self@.replaceReceivers(set, i as int) == old(self)@.replaceReceivers(set, 0),
            decreases 64 - i,
        {
            if set & (1u64 << i) != 0 {
                self.wakeReceiverLocked(Signal((i + 1) as i32));
            }
            i = i + 1;
        }
    }
}

impl Thread {
    /// Whether the thread is at a position that `tg` has.
    pub open spec fn within(self, tg: ThreadGroupView) -> bool {
        self.idx < tg.tasks.len()
    }

    /// Sets the thread's signal mask to `mask` without `SIGKILL` and
    /// `SIGSTOP`, and wakes whoever must now look at the pending signals.
    #[verifier::rlimit(50)]
    pub fn setSignalMaskLocked(&self, tg: &mut ThreadGroupInternal, mask: SignalSet)
        requires
            old(tg)@.wf(),
            self.within(old(tg)@),
        ensures
            final(tg)@ == old(tg)@.setSignalMask(self.idx as int, mask),
            final(tg)@.wf(),
            old(tg)@.sameThreads(final(tg)@),
            old(tg)@.countExact() ==> final(tg)@.countExact(),
            final(tg)@.tasks[self.idx as int].signalMask.0 & UNMASKABLE_MASK == 0,
    {
        let idx = self.idx;
        let ghost g0 = tg@;
        let ghost t0 = g0.tasks[idx as int];
        proof {
            g0.lemma_set_signal_mask_wf(idx as int, mask);
            assert(t0.wf());
        }
        let mask = SignalSet(mask.0 & !UNMASKABLE_MASK);
        let oldMask = tg.tasks[idx].signalMask;
        let ownPending = tg.tasks[idx].pendingSignals.pendingSet.0;
        let blockedGroupPending = (mask.0 & !oldMask.0) & tg.pendingSignals.pendingSet.0;
        let unblockedPending = (oldMask.0 & !mask.0) & (ownPending | tg.pendingSignals.pendingSet.0);
        tg.storeMaskAt(idx, mask);
        let ghost t1 = ThreadView { signalMask: mask, ..t0 };
        if blockedGroupPending != 0 {
            let was = tg.consumeInterruptAt(idx);
            let ghost t2 = ThreadView { interruptPending: false, ..t1 };
            assert(tg@.tasks =~= g0.tasks.update(idx as int, t2));
            if was {
                proof {
                    let mv = mask.0;
                    assert(mv & 0x40100u64 == 0);
                    g0.lemma_with_task(idx as int, t2);
                    let s = g0.withTask(idx as int, t2);
                    s.lemma_replace_receivers_wf(blockedGroupPending, 0);
                }
                tg.replaceReceiversLocked(blockedGroupPending);
                tg.interruptAt(idx);
            } else {
                assert(t2 == t1);
            }
        }
        if unblockedPending != 0 {
            tg.interruptAt(idx);
        }
    }

    /// Sends `info` to the thread, or with `group` to its thread group.
    pub fn sendSignalLocked(&self, tg: &mut ThreadGroupInternal, info: &SignalInfo, group: bool) -> (r: Result<(), Error>)
        requires
            old(tg)@.wf(),
            self.within(old(tg)@),
        ensures
            r == old(tg)@.sendResult(self.idx as int, *info, group),
            final(tg)@ == old(tg)@.sendSignal(self.idx as int, *info, group, None),
            final(tg)@.wf(),
            old(tg)@.sameThreads(final(tg)@),
    {
        self.sendSignalTimerLocked(tg, info, group, None)
    }

    /// Sends `info`, raised by `timer` if one is given, to the thread, or
    /// with `group` to its thread group.
    ///
    /// A dead thread gives `ESRCH`; signal 0 succeeds and changes nothing;
    /// a number that is no signal gives `EINVAL`. Else the signal's side
    /// effects apply, and the signal is dropped if the thread ignores it
    /// without blocking it, or if its queue is full, which for a real-time
    /// signal gives `EAGAIN`. A signal that is queued interrupts a thread
    /// that can receive it.
    #[verifier::rlimit(50)]
    pub fn sendSignalTimerLocked(
        &self,
        tg: &mut ThreadGroupInternal,
        info: &SignalInfo,
        group: bool,
        timer: Option<IntervalTimer>,
    ) -> (r: Result<(), Error>)
        requires
            old(tg)@.wf(),
            self.within(old(tg)@),
        ensures
            r == old(tg)@.sendResult(self.idx as int, *info, group),
            final(tg)@ == old(tg)@.sendSignal(self.idx as int, *info, group, timer),
            final(tg)@.wf(),
            old(tg)@.sameThreads(final(tg)@),
    {
        let idx = self.idx;
        proof {
            old(tg)@.lemma_send_signal_wf(idx as int, *info, group, timer);
        }
        if tg.tasks[idx].exitState.Dead() {
            return Err(Error::SysError(SysErr::ESRCH));
        }
        let sig = Signal(info.Signo);
        if sig.0 == 0 {
            return Ok(());
        }
        if !sig.IsValid() {
            return Err(Error::SysError(SysErr::EINVAL));
        }
        proof {
            old(tg)@.lemma_side_effects_wf(sig.0 as int);
        }
        tg.applySignalSideEffectsLocked(sig);

        // A signal that the thread ignores and does not block is dropped
        // without being queued.
        let act = tg.signalHandlers.GetAct(sig);
        let ignored = ComputeAction(sig, &act) == SignalAction::IGNORE;
        let sigset = SignalSet::New(sig);
        let signalMask = tg.tasks[idx].signalMask;
        let realSignalMask = tg.tasks[idx].realSignalMask;
        if signalMask.0 & sigset.0 == 0 && realSignalMask.0 & sigset.0 == 0 && ignored {
            tg.rejectTimerLocked(timer);
            return Ok(());
        }
        let queued = tg.enqueueLocked(idx, *info, group, timer);
        if !queued {
            if sig.IsRealtime() {
                return Err(Error::SysError(SysErr::EAGAIN));
            }
            tg.rejectTimerLocked(timer);
            return Ok(());
        }
        // The thread that is told may not be the one that takes the signal
        // in the end.
        tg.notifyReceiverLocked(idx, sig, group);
        Ok(())
    }
}


/// The threads after a group stop has begun for each of them.
pub open spec fn BeginStopAll(s: Seq<ThreadView>) -> Seq<ThreadView> {
    Seq::new(s.len(), |i: int| s[i].beginGroupStop())
}

/// After a group stop has begun, the threads with `groupStopPending` set
/// are the live ones.
pub proof fn lemma_begin_stop_counts(s: Seq<ThreadView>)
    ensures
        PendingCount(BeginStopAll(s)) == LiveCount(s),
        0 <= LiveCount(s) <= s.len(),
    decreases s.len(),
{
    if s.len() > 0 {
        lemma_begin_stop_counts(s.drop_last());
        assert(BeginStopAll(s).drop_last() =~= BeginStopAll(s.drop_last()));
    }
}

impl ThreadGroupView {
    /// Whether a group stop that thread `idx` tries to begin goes ahead: the
    /// thread has no stop pending already, a stop signal was dequeued and
    /// no `SIGCONT` came since, and the group neither exits nor runs an
    /// `execve`.
    pub open spec fn stopGoesAhead(self, idx: int) -> bool {
        &&& !self.tasks[idx].groupStopPending
        &&& self.groupStop.groupStopDequeued
        &&& !self.exiting
        &&& !self.execing
    }

    /// The group after thread `idx` has tried to begin a group stop for
    /// signal `signo`.
    ///
    /// Where the stop goes ahead, the signal is recorded unless a stop is
    /// complete already, every live thread must join the stop and is
    /// interrupted, and the count of threads awaited is their number.
    pub open spec fn initiateStop(self, idx: int, signo: i32) -> ThreadGroupView {
        if !self.stopGoesAhead(idx) {
            self
        } else {
            ThreadGroupView {
                tasks: BeginStopAll(self.tasks),
                groupStop: GroupStopState {
                    groupStopSignal: if self.groupStop.groupStopComplete {
                        self.groupStop.groupStopSignal
                    } else {
                        Signal(signo)
                    },
                    groupStopPendingCount: LiveCount(self.tasks) as i32,
                    ..self.groupStop
                },
                ..self
            }
        }
    }

    /// `initiateStop` keeps the group well formed and its threads the same;
    /// where the stop goes ahead, the count of threads awaited is exact
    /// afterwards.
    pub proof fn lemma_initiate_stop_wf(self, idx: int, signo: i32)
        requires
            self.wf(),
            0 <= idx < self.tasks.len(),
        ensures
            self.initiateStop(idx, signo).wf(),
            self.sameThreads(self.initiateStop(idx, signo)),
            self.stopGoesAhead(idx) ==> self.initiateStop(idx, signo).countExact(),
            self.countExact() ==> self.initiateStop(idx, signo).countExact(),
    {
        let n = self.initiateStop(idx, signo);
        if self.stopGoesAhead(idx) {
            lemma_begin_stop_counts(self.tasks);
            lemma_counts_bounded(n.tasks);
            assert forall|i: int| 0 <= i < n.tasks.len() implies (#[trigger] n.tasks[i]).wf() by {
                assert(self.tasks[i].wf());
            }
        }
    }

    /// The group after `forceSignal` for thread `idx`.
    ///
    /// If the thread blocks the signal, or the group ignores it, or
    /// `unconditional` holds, the signal's action goes back to the default
    /// handler; a thread that blocked the signal no longer does.
    pub open spec fn forceSignal(self, idx: int, signo: int, unconditional: bool) -> ThreadGroupView {
        let t = self.tasks[idx];
        let blocked = t.signalMask.0 & Bit((signo - 1) as u64) != 0;
        let act = ActOf(self.actions, signo);
        if blocked || act.handler == SigAct::SIGNAL_ACT_IGNORE || unconditional {
            let g = ThreadGroupView {
                actions: self.actions.update(signo, SigAct { handler: SigAct::SIGNAL_ACT_DEFAULT, ..act }),
                ..self
            };
            if blocked {
                g.setSignalMask(idx, SignalSet(t.signalMask.0 & !Bit((signo - 1) as u64)))
            } else {
                g
            }
        } else {
            self
        }
    }

    /// The group after the action of `signo` has been set, as
    /// `SetSignalAct` does it: nothing changes without a new action or for
    /// a number that is no signal, or for `SIGKILL` and `SIGSTOP`. Else the
    /// new action is stored without `SIGKILL` and `SIGSTOP` in its mask,
    /// and if the new action ignores the signal, by its handler or by the
    /// default for the signal, the waiting instances of the signal are
    /// dropped from every queue of the group, blocked or not.
    pub open spec fn setSignalAct(self, signo: int, actptr: Option<SigAct>) -> ThreadGroupView {
        match actptr {
            Some(a) => {
                if !(0 < signo <= 64) || signo == Signal::SIGKILL || signo == Signal::SIGSTOP {
                    self
                } else {
                    let act = SigAct { mask: a.mask & !UNMASKABLE_MASK, ..a };
                    let g = ThreadGroupView { actions: self.actions.update(signo, act), ..self };
                    if ActionOf(signo, act.handler) == SignalAction::IGNORE {
                        g.discardSpecific(signo)
                    } else {
                        g
                    }
                }
            },
            None => self,
        }
    }
}

impl ThreadGroupInternal {
    /// Begins a group stop for `info`, taken from a queue by thread `idx`,
    /// unless the stop has lost a race.
    pub fn initiateGroupStopLocked(&mut self, idx: usize, info: &SignalInfo)
        requires
            old(self)@.wf(),
            idx < old(self)@.tasks.len(),
        ensures
            final(self)@ == old(self)@.initiateStop(idx as int, info.Signo),
            final(self)@.wf(),
            old(self)@.sameThreads(final(self)@),
            old(self)@.stopGoesAhead(idx as int) ==> final(self)@.countExact(),
            old(self)@.countExact() ==> final(self)@.countExact(),
    {
        proof {
            old(self)@.lemma_initiate_stop_wf(idx as int, info.Signo);
            lemma_begin_stop_counts(old(self)@.tasks);
        }
        if self.tasks[idx].groupStopPending {
            // Lost to a racing stop signal.
            return ;
        }
        if !self.groupStop.groupStopDequeued {
            // Lost to a racing SIGCONT.
            return ;
        }
        if self.exiting {
            // Lost to a racing group exit.
            return ;
        }
        if self.execing {
            // Lost to a racing execve.
            return ;
        }
        if !self.groupStop.groupStopComplete {
            self.groupStop.groupStopSignal = Signal(info.Signo);
        }
        self.groupStop.groupStopPendingCount = 0;
        let ghost stop = self.groupStop;
        let mut add: i32 = 0;
        let n = self.tasks.len();
        let mut i: usize = 0;
        assert(old(self)@.tasks.take(0) =~= Seq::<ThreadView>::empty());
        while i < n
            invariant
                i <= n,
                n == self.tasks@.len(),
                n == old(self)@.tasks.len(),
                n <= 0x7fff_ffff,
                self@ == (ThreadGroupView { tasks: self@.tasks, groupStop: stop, ..old(self)@ }),
                forall|j: int| 0 <= j < i ==> self@.tasks[j] == old(self)@.tasks[j].beginGroupStop(),
                forall|j: int| i <= j < n ==> self@.tasks[j] == old(self)@.tasks[j],
                add == LiveCount(old(self)@.tasks.take(i as int)),
                0 <= add <= i,
            decreases n - i,
        {
            let ghost prev = self@.tasks;
            assert(prev[i as int] == old(self)@.tasks[i as int]);
            proof {
                let t = old(self)@.tasks.take(i as int + 1);
                assert(t.drop_last() =~= old(self)@.tasks.take(i as int));
                assert(t.last() == old(self)@.tasks[i as int]);
            }
            let dead = self.tasks[i].killedLocked() || self.tasks[i].exitState.Initiated();
            if dead {
                self.tasks[i].groupStopPending = false;
            } else {
                self.tasks[i].groupStopPending = true;
                self.tasks[i].groupStopAcknowledged = false;
                self.tasks[i].interrupt();
                add = add + 1;
            }
            assert(self@.tasks =~= prev.update(i as int, prev[i as int].beginGroupStop()));
            i = i + 1;
        }
        assert(old(self)@.tasks.take(n as int) =~= old(self)@.tasks);
        self.groupStop.groupStopPendingCount = self.groupStop.groupStopPendingCount + add;
        assert(self@.tasks =~= BeginStopAll(old(self)@.tasks));
    }

    /// Makes thread `idx` neither ignore nor block `sig`; see
    /// `Thread::forceSignal`.
    pub fn forceSignalLocked(&mut self, idx: usize, sig: Signal, unconditional: bool)
        requires
            old(self)@.wf(),
            idx < old(self)@.tasks.len(),
            sig.valid(),
        ensures
            final(self)@ == old(self)@.forceSignal(idx as int, sig.0 as int, unconditional),
            final(self)@.wf(),
            old(self)@.sameThreads(final(self)@),
    {
        let bit = SignalSet::New(sig).0;
        let signalMask = self.tasks[idx].signalMask;
        let blocked = signalMask.0 & bit != 0;
        let mut act = self.signalHandlers.GetAct(sig);
        let ignored = act.handler == SigAct::SIGNAL_ACT_IGNORE;
        if blocked || ignored || unconditional {
            act.handler = SigAct::SIGNAL_ACT_DEFAULT;
            self.signalHandlers.SetAct(sig, act);
            proof {
                assert(self@.tasks =~= old(self)@.tasks);
                old(self)@.lemma_same_flags_wf(self@);
            }
            if blocked {
                let t = Thread { tg: 0, idx };
                t.setSignalMaskLocked(self, SignalSet(signalMask.0 & !bit));
            }
        }
    }
}

/// Whether `b` has the groups of `a`, each with the threads it has in `a`.
pub open spec fn SameTasks(a: Seq<ThreadGroupView>, b: Seq<ThreadGroupView>) -> bool {
    &&& a.len() == b.len()
    &&& forall|g: int| 0 <= g < b.len() ==> a[g].sameThreads(#[trigger] b[g])
}

/// `SameTasks` carries over two steps.
pub proof fn lemma_same_tasks_trans(a: Seq<ThreadGroupView>, b: Seq<ThreadGroupView>, c: Seq<ThreadGroupView>)
    requires
        SameTasks(a, b),
        SameTasks(b, c),
    ensures
        SameTasks(a, c),
{
    assert forall|g: int| 0 <= g < c.len() implies a[g].sameThreads(#[trigger] c[g]) by {
        assert(a[g].sameThreads(b[g]));
        a[g].lemma_same_threads_trans(b[g], c[g]);
    }
}

/// Replacing a group of a well-formed task set by a well-formed group with
/// the same threads keeps the task set well formed.
pub proof fn lemma_taskset_update(ts: Seq<ThreadGroupView>, g: int, n: ThreadGroupView)
    requires
        TaskSetWf(ts),
        0 <= g < ts.len(),
        n.wf(),
        ts[g].sameThreads(n),
    ensures
        TaskSetWf(ts.update(g, n)),
        SameTasks(ts, ts.update(g, n)),
{
    let u = ts.update(g, n);
    assert forall|h: int| 0 <= h < u.len() implies {
        &&& (#[trigger] u[h]).wf()
        &&& forall|i: int|
            0 <= i < u[h].tasks.len() ==> ((#[trigger] u[h].tasks[i]).parent matches Some(p) ==> HasThread(u, p))
    } by {
        assert(ts[h].wf());
        assert forall|i: int| 0 <= i < u[h].tasks.len() implies ((#[trigger] u[h].tasks[i]).parent matches Some(p)
            ==> HasThread(u, p)) by {
            assert(u[h].tasks[i].parent == ts[h].tasks[i].parent);
            if let Some(p) = ts[h].tasks[i].parent {
                assert(HasThread(ts, p));
                assert(u[p.tg as int].tasks.len() == ts[p.tg as int].tasks.len());
            }
        }
    }
}

impl TaskSet {
    /// Gives the group at position `g` for changing; the task set then
    /// holds what the group has become.
    pub fn Lock(&mut self, g: usize) -> (tg: &mut ThreadGroupInternal)
        requires
            g < old(self)@.len(),
        ensures
            tg@ == old(self)@[g as int],
            final(self)@ == old(self)@.update(g as int, final(tg)@),
    {
        &mut self.groups[g]
    }
}


/// The mask under which `sigtimedwait` looks for the signals of `set`: it
/// blocks every signal not in `set`, and `SIGKILL` and `SIGSTOP`.
pub open spec fn WaitMask(set: SignalSet) -> SignalSet {
    SignalSet(!(set.0 & !UNMASKABLE_MASK))
}

/// What a wait that found no signal returns, given the error that ended
/// the wait: `EAGAIN` after a timeout, else the error itself.
pub open spec fn WaitError(wake: Error) -> Error {
    if wake == Error::SysError(SysErr::ETIMEDOUT) {
        Error::SysError(SysErr::EAGAIN)
    } else {
        wake
    }
}

impl ThreadGroupView {
    /// The signal that thread `idx` takes under `mask`, if any waits.
    pub open spec fn dequeued(self, idx: int, mask: SignalSet) -> Option<SignalInfo> {
        DequeuedSignal(self.tasks[idx].pendingSignals, self.pendingSignals, mask)
    }

    /// The group after thread `idx` has taken a signal under `mask`.
    pub open spec fn dequeue(self, idx: int, mask: SignalSet) -> ThreadGroupView {
        let t = self.tasks[idx];
        ThreadGroupView {
            pendingSignals: GroupAfterDeque(t.pendingSignals, self.pendingSignals, mask),
            tasks: self.tasks.update(idx, ThreadView { pendingSignals: t.pendingSignals.deque(mask), ..t }),
            ..self
        }
    }

    /// `dequeue` keeps the group well formed, its threads the same and its
    /// stop counts as they were.
    pub proof fn lemma_dequeue_wf(self, idx: int, mask: SignalSet)
        requires
            self.wf(),
            0 <= idx < self.tasks.len(),
        ensures
            self.dequeue(idx, mask).wf(),
            self.sameThreads(self.dequeue(idx, mask)),
            self.countExact() ==> self.dequeue(idx, mask).countExact(),
    {
        let t = self.tasks[idx];
        assert(t.wf());
        t.pendingSignals.lemma_deque_wf(mask);
        self.pendingSignals.lemma_deque_wf(mask);
        let t1 = ThreadView { pendingSignals: t.pendingSignals.deque(mask), ..t };
        self.lemma_with_task(idx, t1);
        let g = self.withTask(idx, t1);
        g.lemma_same_flags_wf(self.dequeue(idx, mask));
        assert(g.sameThreads(self.dequeue(idx, mask)));
        self.lemma_same_threads_trans(g, self.dequeue(idx, mask));
    }

    /// The group after the first half of `sigtimedwait` by thread `idx`.
    ///
    /// A waiting signal of `set` is taken at once. Else, unless `timeout`
    /// is 0, the thread's mask is set aside in `realSignalMask` and narrowed
    /// so that it lets through the signals of `set`.
    pub open spec fn beginSigwait(self, idx: int, set: SignalSet, timeout: i64) -> ThreadGroupView {
        let t = self.tasks[idx];
        if self.dequeued(idx, WaitMask(set)) is Some {
            self.dequeue(idx, WaitMask(set))
        } else if timeout == 0 {
            self
        } else {
            self.withTask(idx, ThreadView { realSignalMask: t.signalMask, ..t }).setSignalMask(
                idx,
                SignalSet(t.signalMask.0 & WaitMask(set).0),
            )
        }
    }

    /// The group after the second half of `sigtimedwait`, before the thread
    /// looks for a signal again: its mask is the one set aside, and nothing
    /// is set aside any more.
    pub open spec fn restoreAfterSigwait(self, idx: int) -> ThreadGroupView {
        let g = self.setSignalMask(idx, self.tasks[idx].realSignalMask);
        g.withTask(idx, ThreadView { realSignalMask: SignalSet(0), ..g.tasks[idx] })
    }

    /// The group after the second half of `sigtimedwait` by thread `idx`.
    pub open spec fn endSigwait(self, idx: int, set: SignalSet) -> ThreadGroupView {
        self.restoreAfterSigwait(idx).dequeue(idx, WaitMask(set))
    }

    /// What the second half of `sigtimedwait` returns: a signal of `set`
    /// that has arrived, else the error of the wait.
    pub open spec fn endSigwaitResult(self, idx: int, set: SignalSet, wake: Error) -> Result<SignalInfo, Error> {
        match self.restoreAfterSigwait(idx).dequeued(idx, WaitMask(set)) {
            Some(info) => Ok(info),
            None => Err(WaitError(wake)),
        }
    }

    /// `restoreAfterSigwait` keeps the group well formed and its threads
    /// the same, and changes no queue.
    pub proof fn lemma_restore_wf(self, idx: int)
        requires
            self.wf(),
            0 <= idx < self.tasks.len(),
        ensures
            self.restoreAfterSigwait(idx).wf(),
            self.sameThreads(self.restoreAfterSigwait(idx)),
            self.restoreAfterSigwait(idx).pendingSignals == self.pendingSignals,
            self.restoreAfterSigwait(idx).tasks[idx].pendingSignals == self.tasks[idx].pendingSignals,
            self.restoreAfterSigwait(idx).tasks[idx].realSignalMask == SignalSet(0),
            self.restoreAfterSigwait(idx).tasks[idx].signalMask == SignalSet(
                self.tasks[idx].realSignalMask.0 & !UNMASKABLE_MASK,
            ),
            self.countExact() ==> self.restoreAfterSigwait(idx).countExact(),
    {
        self.lemma_set_signal_mask_wf(idx, self.tasks[idx].realSignalMask);
        let g = self.setSignalMask(idx, self.tasks[idx].realSignalMask);
        assert(g.tasks[idx].wf());
        assert(0u64 & UNMASKABLE_MASK == 0) by (bit_vector);
        g.lemma_with_task(idx, ThreadView { realSignalMask: SignalSet(0), ..g.tasks[idx] });
        self.lemma_same_threads_trans(g, self.restoreAfterSigwait(idx));
    }

    /// The first half of `sigtimedwait` keeps the group well formed and its
    /// threads the same.
    pub proof fn lemma_begin_sigwait_wf(self, idx: int, set: SignalSet, timeout: i64)
        requires
            self.wf(),
            0 <= idx < self.tasks.len(),
        ensures
            self.beginSigwait(idx, set, timeout).wf(),
            self.sameThreads(self.beginSigwait(idx, set, timeout)),
    {
        let t = self.tasks[idx];
        assert(t.wf());
        self.lemma_dequeue_wf(idx, WaitMask(set));
        let t1 = ThreadView { realSignalMask: t.signalMask, ..t };
        self.lemma_with_task(idx, t1);
        let g = self.withTask(idx, t1);
        g.lemma_set_signal_mask_wf(idx, SignalSet(t.signalMask.0 & WaitMask(set).0));
        self.lemma_same_threads_trans(g, g.setSignalMask(idx, SignalSet(t.signalMask.0 & WaitMask(set).0)));
    }
}

impl ThreadGroupInternal {
    /// Takes a pending signal for thread `idx` that `mask` does not block.
    pub fn dequeueLocked(&mut self, idx: usize, mask: SignalSet) -> (r: Option<SignalInfo>)
        requires
            old(self)@.wf(),
            idx < old(self)@.tasks.len(),
        ensures
            r == old(self)@.dequeued(idx as int, mask),
            final(self)@ == old(self)@.dequeue(idx as int, mask),
            final(self)@.wf(),
            old(self)@.sameThreads(final(self)@),
            old(self)@.countExact() ==> final(self)@.countExact(),
    {
        proof {
            old(self)@.lemma_dequeue_wf(idx as int, mask);
            assert(old(self)@.tasks[idx as int].wf());
        }
        let r = self.tasks[idx].dequeueSignalLocked(&mut self.pendingSignals, mask);
        assert(self@.tasks =~= old(self)@.dequeue(idx as int, mask).tasks);
        r
    }

    /// Sets aside the mask of thread `idx` for the time of a wait.
    fn saveRealMaskAt(&mut self, idx: usize)
        requires
            idx < old(self)@.tasks.len(),
        ensures
            final(self)@ == old(self)@.withTask(
                idx as int,
                ThreadView {
                    realSignalMask: old(self)@.tasks[idx as int].signalMask,
                    ..old(self)@.tasks[idx as int]
                },
            ),
    {
        self.tasks[idx].realSignalMask = self.tasks[idx].signalMask;
        assert(self@.tasks =~= old(self)@.tasks.update(
            idx as int,
            ThreadView { realSignalMask: old(self)@.tasks[idx as int].signalMask, ..old(self)@.tasks[idx as int] },
        ));
    }

    /// Forgets the mask set aside for thread `idx`.
    fn clearRealMaskAt(&mut self, idx: usize)
        requires
            idx < old(self)@.tasks.len(),
        ensures
            final(self)@ == old(self)@.withTask(
                idx as int,
                ThreadView { realSignalMask: SignalSet(0), ..old(self)@.tasks[idx as int] },
            ),
    {
        self.tasks[idx].realSignalMask = SignalSet(0);
        assert(self@.tasks =~= old(self)@.tasks.update(
            idx as int,
            ThreadView { realSignalMask: SignalSet(0), ..old(self)@.tasks[idx as int] },
        ));
    }

    /// The first half of `sigtimedwait` for thread `idx`: `Some` with the
    /// outcome if the wait is over at once, `None` if the thread must now
    /// block until a signal or the timeout wakes it.
    pub fn beginSigwaitLocked(&mut self, idx: usize, set: SignalSet, timeout: i64) -> (r: Option<Result<SignalInfo, Error>>)
        requires
            old(self)@.wf(),
            idx < old(self)@.tasks.len(),
        ensures
            final(self)@ == old(self)@.beginSigwait(idx as int, set, timeout),
            final(self)@.wf(),
            old(self)@.sameThreads(final(self)@),
            r == match old(self)@.dequeued(idx as int, WaitMask(set)) {
                Some(info) => Some(Ok::<SignalInfo, Error>(info)),
                None => if timeout == 0 {
                    Some(Err::<SignalInfo, Error>(Error::SysError(SysErr::EAGAIN)))
                } else {
                    None
                },
            },
    {
        proof {
            old(self)@.lemma_begin_sigwait_wf(idx as int, set, timeout);
            assert(old(self)@.tasks[idx as int].wf());
        }
        let mask = SignalSet(!(set.0 & !UNMASKABLE_MASK));
        let info = self.dequeueLocked(idx, mask);
        match info {
            Some(si) => {
                return Some(Ok(si));
            },
            None => {},
        }
        proof {
            let t = old(self)@.tasks[idx as int];
            assert(t.pendingSignals.deque(mask) == t.pendingSignals);
            assert(old(self)@.pendingSignals.deque(mask) == old(self)@.pendingSignals);
            assert(self@.tasks =~= old(self)@.tasks);
        }
        if timeout == 0 {
            return Some(Err(Error::SysError(SysErr::EAGAIN)));
        }
        // The mask in force is set aside, so that a signal which the thread
        // ignores but now lets through is not dropped when it is sent.
        let signalMask = self.tasks[idx].signalMask;
        self.saveRealMaskAt(idx);
        proof {
            let t = old(self)@.tasks[idx as int];
            old(self)@.lemma_with_task(idx as int, ThreadView { realSignalMask: t.signalMask, ..t });
        }
        let t = Thread { tg: 0, idx };
        t.setSignalMaskLocked(self, SignalSet(signalMask.0 & mask.0));
        None
    }

    /// The second half of `sigtimedwait` for thread `idx`, once the wait
    /// has ended with `wake`: puts the thread's mask back and takes a signal
    /// of `set` if one has arrived.
    pub fn endSigwaitLocked(&mut self, idx: usize, set: SignalSet, wake: Error) -> (r: Result<SignalInfo, Error>)
        requires
            old(self)@.wf(),
            idx < old(self)@.tasks.len(),
        ensures
            final(self)@ == old(self)@.endSigwait(idx as int, set),
            r == old(self)@.endSigwaitResult(idx as int, set, wake),
            final(self)@.wf(),
            old(self)@.sameThreads(final(self)@),
            final(self)@.tasks[idx as int].realSignalMask == SignalSet(0),
    {
        proof {
            old(self)@.lemma_restore_wf(idx as int);
            old(self)@.restoreAfterSigwait(idx as int).lemma_dequeue_wf(idx as int, WaitMask(set));
            old(self)@.lemma_same_threads_trans(
                old(self)@.restoreAfterSigwait(idx as int),
                old(self)@.endSigwait(idx as int, set),
            );
            old(self)@.lemma_set_signal_mask_wf(idx as int, old(self)@.tasks[idx as int].realSignalMask);
        }
        let mask = SignalSet(!(set.0 & !UNMASKABLE_MASK));
        let realSignalMask = self.tasks[idx].realSignalMask;
        let t = Thread { tg: 0, idx };
        t.setSignalMaskLocked(self, realSignalMask);
        self.clearRealMaskAt(idx);
        let info = self.dequeueLocked(idx, mask);
        match info {
            Some(si) => {
                return Ok(si);
            },
            None => {},
        }
        match wake {
            Error::SysError(e) => {
                if e == SysErr::ETIMEDOUT {
                    return Err(Error::SysError(SysErr::EAGAIN));
                }
                Err(Error::SysError(e))
            },
            e => Err(e),
        }
    }
}


impl ThreadGroupView {
    /// The group after a whole `sigtimedwait` by thread `idx` during which
    /// nothing else touches the group.
    pub open spec fn sigtimedwait(self, idx: int, set: SignalSet, timeout: i64) -> ThreadGroupView {
        if self.dequeued(idx, WaitMask(set)) is Some || timeout == 0 {
            self.beginSigwait(idx, set, timeout)
        } else {
            self.beginSigwait(idx, set, timeout).endSigwait(idx, set)
        }
    }

    /// What that `sigtimedwait` returns: a waiting signal of `set`; else
    /// `EAGAIN` for a timeout of 0; else what the second half returns after
    /// the wait has ended with `wake`.
    pub open spec fn sigtimedwaitResult(self, idx: int, set: SignalSet, timeout: i64, wake: Error) -> Result<
        SignalInfo,
        Error,
    > {
        match self.dequeued(idx, WaitMask(set)) {
            Some(info) => Ok(info),
            None => if timeout == 0 {
                Err(Error::SysError(SysErr::EAGAIN))
            } else {
                self.beginSigwait(idx, set, timeout).endSigwaitResult(idx, set, wake)
            },
        }
    }

    /// The notice that a parent gets of `target`, a thread with id `pid`
    /// and user id `uid`, having stopped or continued.
    pub open spec fn stopNotice(pid: i32, uid: u32, code: i32, status: i32) -> SignalInfo {
        SignalInfo { Signo: Signal::SIGCHLD, Errno: 0, Code: code, pid, uid, status, addr: 0 }
    }

    /// Whether the group wants to hear of children that stop: it neither
    /// ignores `SIGCHLD` nor has set `SA_NOCLDSTOP` for it.
    pub open spec fn wantsStopNotice(self) -> bool {
        let act = ActOf(self.actions, Signal::SIGCHLD as int);
        act.handler != SigAct::SIGNAL_ACT_IGNORE && act.flags.0 & SigFlag::SIGNAL_FLAG_NO_CLD_STOP == 0
    }

    /// The group of thread `idx` after `signalStop`: the notice is sent to
    /// the group if it wants to hear of it.
    pub open spec fn signalStop(self, idx: int, notice: SignalInfo) -> ThreadGroupView {
        if self.wantsStopNotice() {
            self.sendSignal(idx, notice, true, None)
        } else {
            self
        }
    }
}

/// A `sigtimedwait` for signals of which none waits, with a timeout other
/// than 0 and with nothing else touching the group, returns the error of
/// the wait, with `EAGAIN` for a timeout; afterwards the thread's mask is
/// what it was, and no mask is set aside.
pub proof fn lemma_sigtimedwait_without_signal(g: ThreadGroupView, idx: int, set: SignalSet, timeout: i64, wake: Error)
    requires
        g.wf(),
        0 <= idx < g.tasks.len(),
        g.dequeued(idx, WaitMask(set)) is None,
        timeout != 0,
    ensures
        g.sigtimedwaitResult(idx, set, timeout, wake) == Err::<SignalInfo, Error>(WaitError(wake)),
        g.sigtimedwait(idx, set, timeout).tasks[idx].signalMask == g.tasks[idx].signalMask,
        g.sigtimedwait(idx, set, timeout).tasks[idx].realSignalMask == SignalSet(0),
        g.sigtimedwait(idx, set, timeout).pendingSignals == g.pendingSignals,
        g.sigtimedwait(idx, set, timeout).tasks[idx].pendingSignals == g.tasks[idx].pendingSignals,
{
    let t = g.tasks[idx];
    assert(t.wf());
    let mask = WaitMask(set);
    let t1 = ThreadView { realSignalMask: t.signalMask, ..t };
    g.lemma_with_task(idx, t1);
    let g1 = g.withTask(idx, t1);
    let narrowed = SignalSet(t.signalMask.0 & mask.0);
    g1.lemma_set_signal_mask_wf(idx, narrowed);
    let b = g.beginSigwait(idx, set, timeout);
    assert(b == g1.setSignalMask(idx, narrowed));
    b.lemma_restore_wf(idx);
    let r = b.restoreAfterSigwait(idx);
    assert(r.pendingSignals == g.pendingSignals);
    assert(r.tasks[idx].pendingSignals == t.pendingSignals);
    assert(r.dequeued(idx, mask) is None);
    r.lemma_dequeue_wf(idx, mask);
    let m = t.signalMask.0;
    assert(m & !0x40100u64 == m) by (bit_vector)
        requires
            m & 0x40100u64 == 0,
    ;
}

impl Thread {
    /// Makes sure that the thread neither ignores nor blocks `sig`. With
    /// `unconditional`, the action of `sig` goes back to the default even
    /// if the signal was neither ignored nor blocked.
    pub fn forceSignal(&self, ts: &mut TaskSet, sig: Signal, unconditional: bool)
        requires
            TaskSetWf(old(ts)@),
            HasThread(old(ts)@, *self),
            sig.valid(),
        ensures
            final(ts)@ == old(ts)@.update(
                self.tg as int,
                old(ts)@[self.tg as int].forceSignal(self.idx as int, sig.0 as int, unconditional),
            ),
            TaskSetWf(final(ts)@),
            SameTasks(old(ts)@, final(ts)@),
    {
        let tg = ts.Lock(self.tg);
        tg.forceSignalLocked(self.idx, sig, unconditional);
        proof {
            lemma_taskset_update(old(ts)@, self.tg as int, ts@[self.tg as int]);
        }
    }

    /// Tries to begin a group stop for the stop signal `info` that the
    /// thread has taken from a queue. The stop is given up, and nothing
    /// changes, if the thread has a stop pending already, if a `SIGCONT`
    /// came after the signal was taken, or if the group exits or runs an
    /// `execve`.
    pub fn initiateGroupStop(&self, ts: &mut TaskSet, info: &SignalInfo)
        requires
            TaskSetWf(old(ts)@),
            HasThread(old(ts)@, *self),
        ensures
            final(ts)@ == old(ts)@.update(
                self.tg as int,
                old(ts)@[self.tg as int].initiateStop(self.idx as int, info.Signo),
            ),
            TaskSetWf(final(ts)@),
            SameTasks(old(ts)@, final(ts)@),
            old(ts)@[self.tg as int].stopGoesAhead(self.idx as int) ==> final(ts)@[self.tg as int].countExact(),
            old(ts)@[self.tg as int].countExact() ==> final(ts)@[self.tg as int].countExact(),
    {
        let tg = ts.Lock(self.tg);
        tg.initiateGroupStopLocked(self.idx, info);
        proof {
            lemma_taskset_update(old(ts)@, self.tg as int, ts@[self.tg as int]);
        }
    }

    /// Sets the thread's signal mask; `SIGKILL` and `SIGSTOP` are taken out
    /// of `mask` first.
    pub fn SetSignalMask(&self, ts: &mut TaskSet, mask: SignalSet)
        requires
            TaskSetWf(old(ts)@),
            HasThread(old(ts)@, *self),
        ensures
            final(ts)@ == old(ts)@.update(
                self.tg as int,
                old(ts)@[self.tg as int].setSignalMask(self.idx as int, mask),
            ),
            TaskSetWf(final(ts)@),
            SameTasks(old(ts)@, final(ts)@),
            final(ts)@[self.tg as int].tasks[self.idx as int].signalMask.0 & UNMASKABLE_MASK == 0,
            old(ts)@[self.tg as int].countExact() ==> final(ts)@[self.tg as int].countExact(),
    {
        let tg = ts.Lock(self.tg);
        self.setSignalMaskLocked(tg, mask);
        proof {
            lemma_taskset_update(old(ts)@, self.tg as int, ts@[self.tg as int]);
        }
    }

    /// Tells the thread's group, with a `SIGCHLD` that carries `code` and
    /// `status`, that `target` has stopped or continued, unless the group
    /// ignores `SIGCHLD` or has set `SA_NOCLDSTOP` for it.
    pub fn signalStop(&self, ts: &mut TaskSet, target: &Thread, code: i32, status: i32)
        requires
            TaskSetWf(old(ts)@),
            HasThread(old(ts)@, *self),
            HasThread(old(ts)@, *target),
            old(ts)@[self.tg as int].tasks[self.idx as int].exitState != TaskExitState::TaskExitDead,
        ensures
            final(ts)@ == old(ts)@.update(
                self.tg as int,
                old(ts)@[self.tg as int].signalStop(
                    self.idx as int,
                    ThreadGroupView::stopNotice(
                        old(ts)@[target.tg as int].tasks[target.idx as int].id,
                        old(ts)@[target.tg as int].tasks[target.idx as int].uid,
                        code,
                        status,
                    ),
                ),
            ),
            TaskSetWf(final(ts)@),
            SameTasks(old(ts)@, final(ts)@),
    {
        let pid = ts.groups[target.tg].tasks[target.idx].id;
        let uid = ts.groups[target.tg].tasks[target.idx].uid;
        let tg = ts.Lock(self.tg);
        let act = tg.signalHandlers.GetAct(Signal(Signal::SIGCHLD));
        if !(act.handler != SigAct::SIGNAL_ACT_IGNORE && act.flags.0 & SigFlag::SIGNAL_FLAG_NO_CLD_STOP == 0) {
            proof {
                assert(ts@ =~= old(ts)@);
            }
            return ;
        }
        let sigchld = SignalInfo { Signo: Signal::SIGCHLD, Errno: 0, Code: code, pid, uid, status, addr: 0 };
        let _ = self.sendSignalLocked(tg, &sigchld, true);
        proof {
            lemma_taskset_update(old(ts)@, self.tg as int, ts@[self.tg as int]);
        }
    }

    /// The signals that wait for the thread or for its group.
    pub fn PendingSignals(&self, ts: &TaskSet) -> (r: SignalSet)
        requires
            HasThread(ts@, *self),
        ensures
            r.0 == ts@[self.tg as int].tasks[self.idx as int].pendingSignals.pendingSet.0
                | ts@[self.tg as int].pendingSignals.pendingSet.0,
    {
        let tg = &ts.groups[self.tg];
        SignalSet(tg.tasks[self.idx].pendingSignals.pendingSet.0 | tg.pendingSignals.pendingSet.0)
    }

    /// Sends `info` to the thread.
    ///
    /// `ESRCH` if the thread has exited, `EINVAL` if the number is no
    /// signal, `EAGAIN` if a real-time signal cannot be queued.
    pub fn SendSignal(&self, ts: &mut TaskSet, info: &SignalInfo) -> (r: Result<(), Error>)
        requires
            TaskSetWf(old(ts)@),
            HasThread(old(ts)@, *self),
        ensures
            r == old(ts)@[self.tg as int].sendResult(self.idx as int, *info, false),
            final(ts)@ == old(ts)@.update(
                self.tg as int,
                old(ts)@[self.tg as int].sendSignal(self.idx as int, *info, false, None),
            ),
            TaskSetWf(final(ts)@),
            SameTasks(old(ts)@, final(ts)@),
    {
        let tg = ts.Lock(self.tg);
        let r = self.sendSignalLocked(tg, info, false);
        proof {
            lemma_taskset_update(old(ts)@, self.tg as int, ts@[self.tg as int]);
        }
        r
    }

    /// Sends `info` to the thread's group.
    pub fn SendGroupSignal(&self, ts: &mut TaskSet, info: &SignalInfo) -> (r: Result<(), Error>)
        requires
            TaskSetWf(old(ts)@),
            HasThread(old(ts)@, *self),
        ensures
            r == old(ts)@[self.tg as int].sendResult(self.idx as int, *info, true),
            final(ts)@ == old(ts)@.update(
                self.tg as int,
                old(ts)@[self.tg as int].sendSignal(self.idx as int, *info, true, None),
            ),
            TaskSetWf(final(ts)@),
            SameTasks(old(ts)@, final(ts)@),
    {
        let tg = ts.Lock(self.tg);
        let r = self.sendSignalLocked(tg, info, true);
        proof {
            lemma_taskset_update(old(ts)@, self.tg as int, ts@[self.tg as int]);
        }
        r
    }

    /// Waits for a signal of `set`, as `sigtimedwait(2)` does, where the
    /// wait, if it is entered, ends with `wake` and nothing else touches
    /// the group meanwhile. `timeout` is in nanoseconds.
    ///
    /// Where other threads run during the wait, the two halves are called
    /// one by one: `ThreadGroupInternal::beginSigwaitLocked` before the
    /// thread blocks and `endSigwaitLocked` after.
    pub fn Sigtimedwait(&self, ts: &mut TaskSet, set: SignalSet, timeout: i64, wake: Error) -> (r: Result<
        SignalInfo,
        Error,
    >)
        requires
            TaskSetWf(old(ts)@),
            HasThread(old(ts)@, *self),
        ensures
            r == old(ts)@[self.tg as int].sigtimedwaitResult(self.idx as int, set, timeout, wake),
            final(ts)@ == old(ts)@.update(
                self.tg as int,
                old(ts)@[self.tg as int].sigtimedwait(self.idx as int, set, timeout),
            ),
            TaskSetWf(final(ts)@),
            SameTasks(old(ts)@, final(ts)@),
    {
        let tg = ts.Lock(self.tg);
        let ghost g0 = tg@;
        let first = tg.beginSigwaitLocked(self.idx, set, timeout);
        let r = match first {
            Some(r) => r,
            None => {
                let ghost g1 = tg@;
                let r = tg.endSigwaitLocked(self.idx, set, wake);
                proof {
                    g0.lemma_same_threads_trans(g1, tg@);
                }
                r
            },
        };
        proof {
            lemma_taskset_update(old(ts)@, self.tg as int, ts@[self.tg as int]);
        }
        r
    }

    /// The thread's signal mask.
    pub fn SignalMask(&self, ts: &TaskSet) -> (r: SignalSet)
        requires
            HasThread(ts@, *self),
        ensures
            r == ts@[self.tg as int].tasks[self.idx as int].signalMask,
    {
        ts.groups[self.tg].tasks[self.idx].signalMask
    }

    /// Sets the mask that the thread takes up again when its next handler
    /// returns.
    pub fn SetSavedSignalMask(&self, ts: &mut TaskSet, mask: SignalSet)
        requires
            TaskSetWf(old(ts)@),
            HasThread(old(ts)@, *self),
        ensures
            final(ts)@ == old(ts)@.update(
                self.tg as int,
                old(ts)@[self.tg as int].withTask(
                    self.idx as int,
                    ThreadView {
                        savedSignalMask: mask,
                        haveSavedSignalMask: true,
                        ..old(ts)@[self.tg as int].tasks[self.idx as int]
                    },
                ),
            ),
            TaskSetWf(final(ts)@),
            SameTasks(old(ts)@, final(ts)@),
    {
        let tg = ts.Lock(self.tg);
        let ghost g = tg@;
        assert(g.tasks[self.idx as int].wf());
        tg.tasks[self.idx].savedSignalMask = mask;
        tg.tasks[self.idx].haveSavedSignalMask = true;
        proof {
            let t1 = ThreadView { savedSignalMask: mask, haveSavedSignalMask: true, ..g.tasks[self.idx as int] };
            assert(tg@.tasks =~= g.tasks.update(self.idx as int, t1));
            g.lemma_with_task(self.idx as int, t1);
            lemma_taskset_update(old(ts)@, self.tg as int, ts@[self.tg as int]);
        }
    }

    /// Adds waiter `e` to the thread's signal queue, asking for `mask`.
    pub fn SignalRegister(&self, ts: &mut TaskSet, e: &WaitEntry, mask: EventMask)
        requires
            TaskSetWf(old(ts)@),
            HasThread(old(ts)@, *self),
        ensures
            final(ts)@ == old(ts)@.update(
                self.tg as int,
                old(ts)@[self.tg as int].withTask(
                    self.idx as int,
                    ThreadView {
                        SignalQueue: old(ts)@[self.tg as int].tasks[self.idx as int].SignalQueue.push(
                            WaitEntry { id: e.id, mask, triggered: 0 },
                        ),
                        ..old(ts)@[self.tg as int].tasks[self.idx as int]
                    },
                ),
            ),
            TaskSetWf(final(ts)@),
            SameTasks(old(ts)@, final(ts)@),
    {
        let tg = ts.Lock(self.tg);
        let ghost g = tg@;
        assert(g.tasks[self.idx as int].wf());
        tg.tasks[self.idx].SignalQueue.EventRegister(e, mask);
        proof {
            let t1 = ThreadView {
                SignalQueue: g.tasks[self.idx as int].SignalQueue.push(WaitEntry { id: e.id, mask, triggered: 0 }),
                ..g.tasks[self.idx as int]
            };
            assert(tg@.tasks =~= g.tasks.update(self.idx as int, t1));
            g.lemma_with_task(self.idx as int, t1);
            lemma_taskset_update(old(ts)@, self.tg as int, ts@[self.tg as int]);
        }
    }

    /// Takes waiter `e` from the thread's signal queue.
    pub fn SignalUnregister(&self, ts: &mut TaskSet, e: &WaitEntry)
        requires
            TaskSetWf(old(ts)@),
            HasThread(old(ts)@, *self),
        ensures
            final(ts)@ == old(ts)@.update(
                self.tg as int,
                old(ts)@[self.tg as int].withTask(
                    self.idx as int,
                    ThreadView {
                        SignalQueue: Without(old(ts)@[self.tg as int].tasks[self.idx as int].SignalQueue, e.id),
                        ..old(ts)@[self.tg as int].tasks[self.idx as int]
                    },
                ),
            ),
            TaskSetWf(final(ts)@),
            SameTasks(old(ts)@, final(ts)@),
    {
        let tg = ts.Lock(self.tg);
        let ghost g = tg@;
        assert(g.tasks[self.idx as int].wf());
        tg.tasks[self.idx].SignalQueue.EventUnregister(e);
        proof {
            let t1 = ThreadView {
                SignalQueue: Without(g.tasks[self.idx as int].SignalQueue, e.id),
                ..g.tasks[self.idx as int]
            };
            assert(tg@.tasks =~= g.tasks.update(self.idx as int, t1));
            g.lemma_with_task(self.idx as int, t1);
            lemma_taskset_update(old(ts)@, self.tg as int, ts@[self.tg as int]);
        }
    }
}

impl ThreadGroup {
    /// Sends `info` to the group, through its leader.
    pub fn SendSignal(&self, ts: &mut TaskSet, info: &SignalInfo) -> (r: Result<(), Error>)
        requires
            TaskSetWf(old(ts)@),
            self.0 < old(ts)@.len(),
            old(ts)@[self.0 as int].leader is Some,
        ensures
            r == old(ts)@[self.0 as int].sendResult(old(ts)@[self.0 as int].leader->0 as int, *info, true),
            final(ts)@ == old(ts)@.update(
                self.0 as int,
                old(ts)@[self.0 as int].sendSignal(old(ts)@[self.0 as int].leader->0 as int, *info, true, None),
            ),
            TaskSetWf(final(ts)@),
            SameTasks(old(ts)@, final(ts)@),
    {
        let tg = ts.Lock(self.0);
        let leader = match tg.leader {
            Some(l) => Thread { tg: self.0, idx: l },
            None => {
                proof {
                    assert(false);
                }
                Thread { tg: self.0, idx: 0 }
            },
        };
        let r = leader.sendSignalLocked(tg, info, true);
        proof {
            lemma_taskset_update(old(ts)@, self.0 as int, ts@[self.0 as int]);
        }
        r
    }

    /// Sets the group's action for `sig` to `*actptr`, if that is given,
    /// and returns the action that was set before. A signal that the new
    /// action ignores is dropped from the queues in which it waits.
    ///
    /// `EINVAL` for a number that is no signal, and for a new action for
    /// `SIGKILL` or `SIGSTOP`.
    pub fn SetSignalAct(&self, ts: &mut TaskSet, sig: Signal, actptr: &Option<SigAct>) -> (r: Result<SigAct, Error>)
        requires
            TaskSetWf(old(ts)@),
            self.0 < old(ts)@.len(),
        ensures
            r == if !sig.valid() || ((sig.0 == Signal::SIGKILL || sig.0 == Signal::SIGSTOP) && *actptr is Some) {
                Err::<SigAct, Error>(Error::SysError(SysErr::EINVAL))
            } else {
                Ok::<SigAct, Error>(old(ts)@[self.0 as int].actions[sig.0 as int])
            },
            final(ts)@ == old(ts)@.update(self.0 as int, old(ts)@[self.0 as int].setSignalAct(sig.0 as int, *actptr)),
            TaskSetWf(final(ts)@),
            SameTasks(old(ts)@, final(ts)@),
    {
        if !sig.IsValid() {
            proof {
                assert(ts@ =~= old(ts)@.update(self.0 as int, old(ts)@[self.0 as int]));
            }
            return Err(Error::SysError(SysErr::EINVAL));
        }
        let tg = ts.Lock(self.0);
        let ghost g = tg@;
        let oldact = tg.signalHandlers.GetAct(sig);
        if (sig.0 == Signal::SIGKILL || sig.0 == Signal::SIGSTOP) && actptr.is_some() {
            proof {
                assert(ts@ =~= old(ts)@.update(self.0 as int, old(ts)@[self.0 as int]));
            }
            return Err(Error::SysError(SysErr::EINVAL));
        }
        match actptr {
            None => {
                proof {
                    assert(ts@ =~= old(ts)@.update(self.0 as int, old(ts)@[self.0 as int]));
                }
            },
            Some(a) => {
                let mut act = *a;
                act.mask = act.mask & !UNMASKABLE_MASK;
                tg.signalHandlers.SetAct(sig, act);
                proof {
                    assert(tg@.tasks =~= g.tasks);
                    g.lemma_same_flags_wf(tg@);
                    tg@.lemma_discard_wf(sig.0 as int);
                    assert(g.sameThreads(tg@));
                    assert(tg@.sameThreads(tg@.discardSpecific(sig.0 as int)));
                    g.lemma_same_threads_trans(tg@, tg@.discardSpecific(sig.0 as int));
                }
                if ComputeAction(sig, &act) == SignalAction::IGNORE {
                    tg.discardSpecificLocked(sig);
                }
                proof {
                    lemma_taskset_update(old(ts)@, self.0 as int, ts@[self.0 as int]);
                }
            },
        }
        Ok(oldact)
    }
}


/// A `SIGCONT` calls off the stop of a stop signal that was taken from a
/// queue before it: whatever state the group is in, ending the group stop,
/// as sending `SIGCONT` does, leaves no stop signal dequeued, and a thread
/// that then tries to begin the stop changes nothing.
pub proof fn lemma_continue_calls_off_stop(g: ThreadGroupView, broadcast: bool, idx: int, signo: i32)
    ensures
        !g.endGroupStop(broadcast).groupStop.groupStopDequeued,
        !g.endGroupStop(broadcast).stopGoesAhead(idx),
        g.endGroupStop(broadcast).initiateStop(idx, signo) == g.endGroupStop(broadcast),
        g.applySideEffects(Signal::SIGCONT as int) == g.endGroupStop(true),
{
    reveal(ThreadGroupView::endGroupStop);
    reveal(ThreadGroupView::applySideEffects);
}

/// Setting an action that ignores a signal drops the signal where it
/// waits: afterwards it waits neither for the group nor for any of its
/// threads, whether it was blocked or not, and the queues of the other
/// signals are as they were.
pub proof fn lemma_ignoring_action_drops_pending(g: ThreadGroupView, signo: int, a: SigAct)
    requires
        g.wf(),
        0 < signo <= 64,
        ActionOf(signo, a.handler) == SignalAction::IGNORE,
    ensures
        ({
            let n = g.setSignalAct(signo, Some(a));
            &&& n.wf()
            &&& !n.pendingSignals.pendingSet.has(signo)
            &&& n.pendingSignals.queues[signo - 1].len() == 0
            &&& forall|k: int|
                0 <= k < 64 && k != signo - 1 ==> #[trigger] n.pendingSignals.queues[k] == g.pendingSignals.queues[k]
            &&& n.tasks.len() == g.tasks.len()
            &&& forall|i: int|
                0 <= i < n.tasks.len() ==> {
                    &&& !(#[trigger] n.tasks[i]).pendingSignals.pendingSet.has(signo)
                    &&& n.tasks[i].pendingSignals.queues[signo - 1].len() == 0
                    &&& forall|k: int|
                        0 <= k < 64 && k != signo - 1 ==> #[trigger] n.tasks[i].pendingSignals.queues[k]
                            == g.tasks[i].pendingSignals.queues[k]
                }
        }),
{
    let act = SigAct { mask: a.mask & !UNMASKABLE_MASK, ..a };
    let h = ThreadGroupView { actions: g.actions.update(signo, act), ..g };
    g.lemma_same_flags_wf(h);
    h.lemma_discard_wf(signo);
    let n = g.setSignalAct(signo, Some(a));
    assert(n == h.discardSpecific(signo));
    crate::qlib::linux_def::lemma_has_clear_bit(g.pendingSignals.pendingSet.0, (signo - 1) as u64, (signo - 1) as u64);
    assert forall|i: int| 0 <= i < n.tasks.len() implies {
        &&& !(#[trigger] n.tasks[i]).pendingSignals.pendingSet.has(signo)
        &&& n.tasks[i].pendingSignals.queues[signo - 1].len() == 0
        &&& forall|k: int|
            0 <= k < 64 && k != signo - 1 ==> #[trigger] n.tasks[i].pendingSignals.queues[k]
                == g.tasks[i].pendingSignals.queues[k]
    } by {
        assert(g.tasks[i].wf());
        crate::qlib::linux_def::lemma_has_clear_bit(
            g.tasks[i].pendingSignals.pendingSet.0,
            (signo - 1) as u64,
            (signo - 1) as u64,
        );
    }
}

/// Signal 0 is ignored whatever handler is set.
pub proof fn lemma_null_signal_ignored(handler: u64)
    ensures
        ActionOf(0, handler) == SignalAction::IGNORE,
{
}

/// No thread of a well-formed task set blocks `SIGKILL` or `SIGSTOP`,
/// neither in the mask in force nor in the mask that a `sigtimedwait` has
/// set aside.
pub proof fn lemma_kill_and_stop_never_blocked(ts: Seq<ThreadGroupView>, t: Thread)
    requires
        TaskSetWf(ts),
        HasThread(ts, t),
    ensures
        !ts[t.tg as int].tasks[t.idx as int].signalMask.has(Signal::SIGKILL as int),
        !ts[t.tg as int].tasks[t.idx as int].signalMask.has(Signal::SIGSTOP as int),
        !ts[t.tg as int].tasks[t.idx as int].realSignalMask.has(Signal::SIGKILL as int),
        !ts[t.tg as int].tasks[t.idx as int].realSignalMask.has(Signal::SIGSTOP as int),
{
    let g = ts[t.tg as int];
    assert(g.wf());
    let th = g.tasks[t.idx as int];
    assert(th.wf());
    let m = th.signalMask.0;
    let r = th.realSignalMask.0;
    assert(m & (1u64 << 8u64) == 0 && m & (1u64 << 18u64) == 0) by (bit_vector)
        requires
            m & 0x40100u64 == 0,
    ;
    assert(r & (1u64 << 8u64) == 0 && r & (1u64 << 18u64) == 0) by (bit_vector)
        requires
            r & 0x40100u64 == 0,
    ;
}

} // verus!
