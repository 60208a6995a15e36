//! Thread groups: the threads that share signal handlers, and the state of
//! the group that its signal lock guards.

use vstd::prelude::*;
use crate::SignalDef::IntervalTimer;
use crate::SignalDef::PendingSignals;
use crate::SignalDef::PendingView;
use crate::kernel::waiter::Queue;
use crate::kernel::waiter::WaitEntry;
use crate::qlib::linux_def::EventMask;
use crate::qlib::linux_def::ExitStatus;
use crate::qlib::linux_def::SigAct;
use crate::qlib::linux_def::SigFlag;
use crate::qlib::linux_def::Signal;
use crate::threadmgr::thread::Thread;
use crate::threadmgr::thread::ThreadInternal;
use crate::threadmgr::thread::ThreadView;

verus! {

/// Events on the event queue of a thread group.
pub const EVENT_EXIT: EventMask = 1;

/// A child group has stopped.
pub const EVENT_CHILD_GROUP_STOP: EventMask = 2;

pub const EVENT_TRACEE_STOP: EventMask = 4;

/// A child group has continued.
pub const EVENT_GROUP_CONTINUE: EventMask = 8;

/// The action of each signal: `actions[n]` is that of signal `n`; the
/// entry 0 is not used.
pub struct SignalHandlers {
    pub actions: Vec<SigAct>,
}

impl View for SignalHandlers {
    type V = Seq<SigAct>;

    open spec fn view(&self) -> Seq<SigAct> {
        self.actions@
    }
}

/// The action that `actions` holds for `signo`; the unset one outside 1 to 64.
pub open spec fn ActOf(actions: Seq<SigAct>, signo: int) -> SigAct {
    if 0 < signo <= 64 {
        actions[signo]
    } else {
        SigAct::unset()
    }
}

/// The actions after signal `signo` has been taken for delivery: one with
/// `SA_RESETHAND` goes back to the unset action.
pub open spec fn AfterDequeAct(actions: Seq<SigAct>, signo: int) -> Seq<SigAct> {
    if 0 < signo <= 64 && actions[signo].flags.0 & SigFlag::SIGNAL_FLAG_RESET_HANDLER != 0 {
        actions.update(signo, SigAct::unset())
    } else {
        actions
    }
}

impl SignalHandlers {
    /// Handlers with every action unset.
    pub fn New() -> (r: SignalHandlers)
        ensures
            r@.len() == 65,
            forall|i: int| 0 <= i < 65 ==> r@[i] == SigAct::unset(),
    {
        let mut actions: Vec<SigAct> = Vec::new();
        let mut i: usize = 0;
        while i < 65
            invariant
                i <= 65,
                actions@.len() == i,
                forall|j: int| 0 <= j < i ==> actions@[j] == SigAct::unset(),
            decreases 65 - i,
        {
            actions.push(SigAct::default());
            i = i + 1;
        }
        SignalHandlers { actions }
    }

    /// The action of `sig`.
    pub fn GetAct(&self, sig: Signal) -> (r: SigAct)
        requires
            self@.len() == 65,
        ensures
            r == ActOf(self@, sig.0 as int),
    {
        if sig.IsValid() {
            self.actions[sig.0 as usize]
        } else {
            SigAct::default()
        }
    }

    /// Sets the action of `sig`.
    pub fn SetAct(&mut self, sig: Signal, act: SigAct)
        requires
            old(self)@.len() == 65,
            sig.valid(),
        ensures
            final(self)@ == old(self)@.update(sig.0 as int, act),
    {
        self.actions[sig.0 as usize] = act;
    }

    /// The action of `sig`, for a delivery: an action with `SA_RESETHAND` is
    /// handed out once and then unset.
    pub fn DequeAct(&mut self, sig: Signal) -> (r: SigAct)
        requires
            old(self)@.len() == 65,
        ensures
            r == ActOf(old(self)@, sig.0 as int),
            final(self)@ == AfterDequeAct(old(self)@, sig.0 as int),
    {
        let act = self.GetAct(sig);
        if sig.IsValid() && act.flags.IsResetHandler() {
            self.actions[sig.0 as usize] = SigAct::default();
        }
        act
    }
}

/// Where a group stands in stopping and continuing.
#[derive(Clone, Copy, Debug, PartialEq, Eq, Structural)]
pub struct GroupStopState {
    /// How many threads have yet to join the group stop in progress.
    pub groupStopPendingCount: i32,
    /// Every live thread has joined the stop.
    pub groupStopComplete: bool,
    /// A stop signal was taken from a queue and no `SIGCONT` came since.
    pub groupStopDequeued: bool,
    /// The signal that began the stop; 0 if none.
    pub groupStopSignal: Signal,
    /// The parent may wait for the completed stop.
    pub groupStopWaitable: bool,
    /// A continuing thread must tell the parent that the group continued.
    pub groupContNotify: bool,
    /// The group continued before its stop was complete.
    pub groupContInterrupted: bool,
    /// The parent may wait for the continue.
    pub groupContWaitable: bool,
}

impl GroupStopState {
    /// No stop in progress, none dequeued.
    pub open spec fn idle() -> GroupStopState {
        GroupStopState {
            groupStopPendingCount: 0,
            groupStopComplete: false,
            groupStopDequeued: false,
            groupStopSignal: Signal(0),
            groupStopWaitable: false,
            groupContNotify: false,
            groupContInterrupted: false,
            groupContWaitable: false,
        }
    }
}

/// The state of a thread group and of its threads.
pub struct ThreadGroupInternal {
    /// Signals sent to the group as a whole.
    pub pendingSignals: PendingSignals,
    pub signalHandlers: SignalHandlers,
    pub groupStop: GroupStopState,
    /// The group is on its way out.
    pub exiting: bool,
    pub exitStatus: ExitStatus,
    /// An `execve` is in progress in the group.
    pub execing: bool,
    /// The threads of the group.
    pub tasks: Vec<ThreadInternal>,
    /// Position of the group's leader in `tasks`, while it has one.
    pub leader: Option<usize>,
    /// Waiters on events of the group's children.
    pub eventQueue: Queue,
    /// The timers whose signal was refused, in the order of refusal; the
    /// timer subsystem takes them from here.
    pub timerRejections: Vec<IntervalTimer>,
}

/// A `ThreadGroupInternal` as a value.
pub struct ThreadGroupView {
    pub pendingSignals: PendingView,
    pub actions: Seq<SigAct>,
    pub groupStop: GroupStopState,
    pub exiting: bool,
    pub exitStatus: ExitStatus,
    pub execing: bool,
    pub tasks: Seq<ThreadView>,
    pub leader: Option<usize>,
    pub eventQueue: Seq<WaitEntry>,
    pub timerRejections: Seq<IntervalTimer>,
}

impl View for ThreadGroupInternal {
    type V = ThreadGroupView;

    open spec fn view(&self) -> ThreadGroupView {
        ThreadGroupView {
            pendingSignals: self.pendingSignals@,
            actions: self.signalHandlers@,
            groupStop: self.groupStop,
            exiting: self.exiting,
            exitStatus: self.exitStatus,
            execing: self.execing,
            tasks: TasksView(self.tasks@),
            leader: self.leader,
            eventQueue: self.eventQueue@,
            timerRejections: self.timerRejections@,
        }
    }
}

/// The threads of a group as values.
pub open spec fn TasksView(tasks: Seq<ThreadInternal>) -> Seq<ThreadView> {
    Seq::new(tasks.len(), |i: int| tasks[i]@)
}

/// How many of the threads have `groupStopPending` set.
pub open spec fn PendingCount(s: Seq<ThreadView>) -> int
    decreases s.len(),
{
    if s.len() == 0 {
        0
    } else {
        PendingCount(s.drop_last()) + if s.last().groupStopPending {
            1int
        } else {
            0int
        }
    }
}

/// How many of the threads have `groupStopAcknowledged` set.
pub open spec fn AckCount(s: Seq<ThreadView>) -> int
    decreases s.len(),
{
    if s.len() == 0 {
        0
    } else {
        AckCount(s.drop_last()) + if s.last().groupStopAcknowledged {
            1int
        } else {
            0int
        }
    }
}

/// The counts lie between 0 and the number of threads.
pub proof fn lemma_counts_bounded(s: Seq<ThreadView>)
    ensures
        0 <= PendingCount(s) <= s.len(),
        0 <= AckCount(s) <= s.len(),
    decreases s.len(),
{
    if s.len() > 0 {
        lemma_counts_bounded(s.drop_last());
    }
}

/// Replacing one thread changes each count by that thread's part in it.
pub proof fn lemma_counts_update(s: Seq<ThreadView>, i: int, t: ThreadView)
    requires
        0 <= i < s.len(),
    ensures
        PendingCount(s.update(i, t)) == PendingCount(s) - (if s[i].groupStopPending {
            1int
        } else {
            0int
        }) + (if t.groupStopPending {
            1int
        } else {
            0int
        }),
        AckCount(s.update(i, t)) == AckCount(s) - (if s[i].groupStopAcknowledged {
            1int
        } else {
            0int
        }) + (if t.groupStopAcknowledged {
            1int
        } else {
            0int
        }),
    decreases s.len(),
{
    let u = s.update(i, t);
    if i == s.len() - 1 {
        assert(u.drop_last() =~= s.drop_last());
    } else {
        lemma_counts_update(s.drop_last(), i, t);
        assert(u.drop_last() =~= s.drop_last().update(i, t));
    }
}

/// Threads that agree on the two flags agree on the counts.
pub proof fn lemma_counts_same_flags(a: Seq<ThreadView>, b: Seq<ThreadView>)
    requires
        a.len() == b.len(),
        forall|i: int|
            0 <= i < a.len() ==> (#[trigger] a[i]).groupStopPending == b[i].groupStopPending
                && a[i].groupStopAcknowledged == b[i].groupStopAcknowledged,
    ensures
        PendingCount(a) == PendingCount(b),
        AckCount(a) == AckCount(b),
    decreases a.len(),
{
    if a.len() > 0 {
        assert(a.last() == a[a.len() - 1]);
        lemma_counts_same_flags(a.drop_last(), b.drop_last());
    }
}

impl ThreadGroupView {
    /// The queues and every thread are well formed, each signal has its
    /// action, the leader is one of the threads, and the count of threads
    /// that have yet to join a stop is not below minus the number of threads
    /// that have joined one.
    pub open spec fn wf(self) -> bool {
        &&& self.pendingSignals.wf()
        &&& self.actions.len() == 65
        &&& self.tasks.len() <= 0x7fff_ffff
        &&& forall|i: int| 0 <= i < self.tasks.len() ==> (#[trigger] self.tasks[i]).wf()
        &&& (self.leader matches Some(l) ==> l < self.tasks.len())
        &&& self.groupStop.groupStopPendingCount + AckCount(self.tasks) >= 0
        &&& self.groupStop.groupStopPendingCount <= self.tasks.len()
    }

    /// The count of threads that have yet to join the stop is the number of
    /// threads with `groupStopPending` set.
    pub open spec fn countExact(self) -> bool {
        self.groupStop.groupStopPendingCount == PendingCount(self.tasks)
    }

    /// The group with thread `i` replaced by `t`.
    pub open spec fn withTask(self, i: int, t: ThreadView) -> ThreadGroupView {
        ThreadGroupView { tasks: self.tasks.update(i, t), ..self }
    }

    /// A group without threads, in its first state.
    pub open spec fn fresh() -> ThreadGroupView {
        ThreadGroupView {
            pendingSignals: PendingView::empty(),
            actions: Seq::new(65, |i: int| SigAct::unset()),
            groupStop: GroupStopState::idle(),
            exiting: false,
            exitStatus: ExitStatus { Code: 0, Signo: 0 },
            execing: false,
            tasks: Seq::empty(),
            leader: None,
            eventQueue: Seq::empty(),
            timerRejections: Seq::empty(),
        }
    }
}

impl ThreadGroupInternal {
    /// A group without threads.
    pub fn New() -> (r: ThreadGroupInternal)
        ensures
            r@ == ThreadGroupView::fresh(),
            r@.wf(),
    {
        let r = ThreadGroupInternal {
            pendingSignals: PendingSignals::New(),
            signalHandlers: SignalHandlers::New(),
            groupStop: GroupStopState {
                groupStopPendingCount: 0,
                groupStopComplete: false,
                groupStopDequeued: false,
                groupStopSignal: Signal(0),
                groupStopWaitable: false,
                groupContNotify: false,
                groupContInterrupted: false,
                groupContWaitable: false,
            },
            exiting: false,
            exitStatus: ExitStatus { Code: 0, Signo: 0 },
            execing: false,
            tasks: Vec::new(),
            leader: None,
            eventQueue: Queue::New(),
            timerRejections: Vec::new(),
        };
        proof {
            assert(r@.actions =~= ThreadGroupView::fresh().actions);
            assert(r@.tasks =~= ThreadGroupView::fresh().tasks);
        }
        r
    }

    /// Adds `t` as the last thread of the group and returns its position;
    /// the first thread added becomes the leader.
    pub fn AddThread(&mut self, t: ThreadInternal) -> (idx: usize)
        requires
            old(self)@.wf(),
            t@.wf(),
            old(self)@.tasks.len() < 0x7fff_ffff,
        ensures
            idx == old(self)@.tasks.len(),
            final(self)@ == (ThreadGroupView {
                tasks: old(self)@.tasks.push(t@),
                leader: if old(self)@.leader is None {
                    Some(idx)
                } else {
                    old(self)@.leader
                },
                ..old(self)@
            }),
            final(self)@.wf(),
    {
        let idx = self.tasks.len();
        self.tasks.push(t);
        if self.leader.is_none() {
            self.leader = Some(idx);
        }
        proof {
            assert(self@.tasks =~= old(self)@.tasks.push(t@));
            assert(self@.tasks.drop_last() =~= old(self)@.tasks);
        }
        idx
    }
}

/// The thread groups of the system.
pub struct TaskSet {
    pub groups: Vec<ThreadGroupInternal>,
}

/// Names a thread group: its position in the task set.
#[derive(Clone, Copy, Debug, PartialEq, Eq, Structural)]
pub struct ThreadGroup(pub usize);

impl View for TaskSet {
    type V = Seq<ThreadGroupView>;

    open spec fn view(&self) -> Seq<ThreadGroupView> {
        Seq::new(self.groups@.len(), |i: int| self.groups@[i]@)
    }
}

/// Whether `t` names a thread of the task set `ts`.
pub open spec fn HasThread(ts: Seq<ThreadGroupView>, t: Thread) -> bool {
    t.tg < ts.len() && t.idx < ts[t.tg as int].tasks.len()
}

/// Every group is well formed, and every parent is a thread of the set.
pub open spec fn TaskSetWf(ts: Seq<ThreadGroupView>) -> bool {
    forall|g: int|
        0 <= g < ts.len() ==> {
            &&& (#[trigger] ts[g]).wf()
            &&& forall|i: int|
                0 <= i < ts[g].tasks.len() ==> ((#[trigger] ts[g].tasks[i]).parent matches Some(p) ==> HasThread(ts, p))
        }
}

impl TaskSet {
    /// A task set without groups.
    pub fn New() -> (r: TaskSet)
        ensures
            r@ == Seq::<ThreadGroupView>::empty(),
            TaskSetWf(r@),
    {
        let r = TaskSet { groups: Vec::new() };
        assert(r@ =~= Seq::<ThreadGroupView>::empty());
        r
    }

    /// Adds the group `g`, whose threads have their parents among the
    /// threads of the set or of `g` itself, and returns its name.
    pub fn AddGroup(&mut self, g: ThreadGroupInternal) -> (r: ThreadGroup)
        requires
            TaskSetWf(old(self)@),
            g@.wf(),
            forall|i: int|
                0 <= i < g@.tasks.len() ==> ((#[trigger] g@.tasks[i]).parent matches Some(p) ==> HasThread(
                    old(self)@.push(g@),
                    p,
                )),
        ensures
            r.0 == old(self)@.len(),
            final(self)@ == old(self)@.push(g@),
            TaskSetWf(final(self)@),
    {
        let ghost gv = g@;
        let idx = self.groups.len();
        self.groups.push(g);
        proof {
            let before = old(self)@;
            let after = self@;
            assert(after =~= before.push(gv));
            assert forall|h: int| 0 <= h < after.len() implies {
                &&& (#[trigger] after[h]).wf()
                &&& forall|i: int|
                    0 <= i < after[h].tasks.len() ==> ((#[trigger] after[h].tasks[i]).parent matches Some(p)
                        ==> HasThread(after, p))
            } by {
                if h < before.len() {
                    assert(before[h].wf());
                    assert forall|i: int| 0 <= i < after[h].tasks.len() implies ((#[trigger] after[h].tasks[i]).parent matches Some(
                        p,
                    ) ==> HasThread(after, p)) by {
                        if let Some(p) = before[h].tasks[i].parent {
                            assert(HasThread(before, p));
                            assert(after[p.tg as int] == before[p.tg as int]);
                        }
                    }
                }
            }
        }
        ThreadGroup(idx)
    }
}

} // verus!
