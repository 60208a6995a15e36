//! The signal-relevant state of one thread.

use vstd::prelude::*;
use crate::SignalDef::PendingSignals;
use crate::SignalDef::PendingView;
use crate::kernel::waiter::NotifyAll;
use crate::kernel::waiter::Queue;
use crate::kernel::waiter::WaitEntry;
use crate::qlib::linux_def::Bit;
use crate::qlib::linux_def::ExitStatus;
use crate::qlib::linux_def::Signal;
use crate::qlib::linux_def::SignalInfo;
use crate::qlib::linux_def::SignalInfoPriv;
use crate::qlib::linux_def::SignalSet;
use crate::qlib::linux_def::UNMASKABLE_MASK;
use crate::threadmgr::task_exit::TaskExitState;
use crate::threadmgr::task_stop::StopInForce;
use crate::threadmgr::task_stop::TaskStop;

verus! {

/// Names a thread: the position of its group in the task set, and its own
/// position among the group's tasks.
#[derive(Clone, Copy, Debug, PartialEq, Eq, Structural)]
pub struct Thread {
    pub tg: usize,
    pub idx: usize,
}

/// The state of one thread that the signal lock of its group guards.
pub struct ThreadInternal {
    /// The thread's id in its PID namespace.
    pub id: i32,
    /// The thread's real user id, as its parent's user namespace shows it.
    pub uid: u32,
    /// The thread that is told when this one stops or continues.
    pub parent: Option<Thread>,
    /// Signals sent to this thread alone.
    pub pendingSignals: PendingSignals,
    /// Signals that the thread blocks.
    pub signalMask: SignalSet,
    /// The mask that a `sigtimedwait` in progress has replaced; else empty.
    pub realSignalMask: SignalSet,
    /// The mask to put back when the next handler returns, if
    /// `haveSavedSignalMask`.
    pub savedSignalMask: SignalSet,
    pub haveSavedSignalMask: bool,
    /// The stop that holds the thread, if any.
    pub stop: Option<StopInForce>,
    pub exitState: TaskExitState,
    /// How the thread ends, once it is on its way out.
    pub exitStatus: ExitStatus,
    /// The thread must join the group stop in progress.
    pub groupStopPending: bool,
    /// The thread has joined the group stop in progress.
    pub groupStopAcknowledged: bool,
    pub trapStopPending: bool,
    pub trapNotifyPending: bool,
    /// The interrupt of the thread's blocker: set by `interrupt`, and stays
    /// set until `Interrupted(true)` consumes it.
    pub interruptPending: bool,
    /// Waiters that watch the signals sent to this thread.
    pub SignalQueue: Queue,
}

/// A `ThreadInternal` as a value: its queues by what they hold.
pub struct ThreadView {
    pub id: i32,
    pub uid: u32,
    pub parent: Option<Thread>,
    pub pendingSignals: PendingView,
    pub signalMask: SignalSet,
    pub realSignalMask: SignalSet,
    pub savedSignalMask: SignalSet,
    pub haveSavedSignalMask: bool,
    pub stop: Option<StopInForce>,
    pub exitState: TaskExitState,
    pub exitStatus: ExitStatus,
    pub groupStopPending: bool,
    pub groupStopAcknowledged: bool,
    pub trapStopPending: bool,
    pub trapNotifyPending: bool,
    pub interruptPending: bool,
    pub SignalQueue: Seq<WaitEntry>,
}

impl View for ThreadInternal {
    type V = ThreadView;

    open spec fn view(&self) -> ThreadView {
        ThreadView {
            id: self.id,
            uid: self.uid,
            parent: self.parent,
            pendingSignals: self.pendingSignals@,
            signalMask: self.signalMask,
            realSignalMask: self.realSignalMask,
            savedSignalMask: self.savedSignalMask,
            haveSavedSignalMask: self.haveSavedSignalMask,
            stop: self.stop,
            exitState: self.exitState,
            exitStatus: self.exitStatus,
            groupStopPending: self.groupStopPending,
            groupStopAcknowledged: self.groupStopAcknowledged,
            trapStopPending: self.trapStopPending,
            trapNotifyPending: self.trapNotifyPending,
            interruptPending: self.interruptPending,
            SignalQueue: self.SignalQueue@,
        }
    }
}

/// The signal that marks a thread as killed.
pub open spec fn KillInfo() -> SignalInfo {
    SignalInfo::bare(Signal::SIGKILL, SignalInfo::SIGNAL_INFO_KERNEL)
}

impl ThreadView {
    /// The queues are well formed, and neither the mask in force nor the
    /// mask set aside by `sigtimedwait` blocks `SIGKILL` or `SIGSTOP`.
    pub open spec fn wf(self) -> bool {
        &&& self.pendingSignals.wf()
        &&& self.signalMask.0 & UNMASKABLE_MASK == 0
        &&& self.realSignalMask.0 & UNMASKABLE_MASK == 0
    }

    /// A new thread: nothing pending, nothing blocked, not stopped.
    pub open spec fn fresh(id: i32, uid: u32, parent: Option<Thread>) -> ThreadView {
        ThreadView {
            id,
            uid,
            parent,
            pendingSignals: PendingView::empty(),
            signalMask: SignalSet(0),
            realSignalMask: SignalSet(0),
            savedSignalMask: SignalSet(0),
            haveSavedSignalMask: false,
            stop: None,
            exitState: TaskExitState::TaskExitNone,
            exitStatus: ExitStatus { Code: 0, Signo: 0 },
            groupStopPending: false,
            groupStopAcknowledged: false,
            trapStopPending: false,
            trapNotifyPending: false,
            interruptPending: false,
            SignalQueue: Seq::empty(),
        }
    }

    /// The thread with its blocker interrupted.
    pub open spec fn interrupt(self) -> ThreadView {
        ThreadView { interruptPending: true, ..self }
    }

    /// The thread after `Interrupted(consume)`.
    pub open spec fn afterInterrupted(self, consume: bool) -> ThreadView {
        if consume {
            ThreadView { interruptPending: false, ..self }
        } else {
            self
        }
    }

    /// Whether a `SIGKILL` waits for the thread.
    pub open spec fn killed(self) -> bool {
        self.pendingSignals.pendingSet.0 & Bit(8) != 0
    }

    /// A thread that takes part in a group stop: neither killed nor on its
    /// way out.
    pub open spec fn live(self) -> bool {
        !self.killed() && !self.exitState.initiated()
    }

    /// The thread after it has been killed: a killable stop ends, a
    /// `SIGKILL` is queued for the thread, and its blocker is interrupted.
    pub open spec fn kill(self) -> ThreadView {
        ThreadView {
            stop: if self.stop is Some && self.stop->0.Killable {
                None
            } else {
                self.stop
            },
            pendingSignals: self.pendingSignals.enque(KillInfo(), None),
            interruptPending: true,
            ..self
        }
    }

    /// The thread after the waiters on its signal queue have been told of
    /// signal `signo`.
    pub open spec fn notified(self, signo: int) -> ThreadView {
        ThreadView { SignalQueue: NotifyAll(self.SignalQueue, Bit((signo - 1) as u64)), ..self }
    }

    /// Whether the thread should be interrupted to take signal `signo`: it
    /// does not block the signal, is not stopped, and has no interrupt
    /// waiting already.
    pub open spec fn canReceive(self, signo: int) -> bool {
        &&& self.signalMask.0 & Bit((signo - 1) as u64) == 0
        &&& self.stop is None
        &&& !self.interruptPending
    }

    /// Whether a signal waits, in `pending` or in `group`, that the thread
    /// does not block.
    pub open spec fn hasSignal(self, group: PendingView) -> bool {
        (self.pendingSignals.pendingSet.0 | group.pendingSet.0) & !self.signalMask.0 != 0
    }
}

impl ThreadInternal {
    /// A thread in its first state.
    pub fn New(id: i32, uid: u32, parent: Option<Thread>) -> (r: ThreadInternal)
        ensures
            r@ == ThreadView::fresh(id, uid, parent),
            r@.wf(),
    {
        let r = ThreadInternal {
            id,
            uid,
            parent,
            pendingSignals: PendingSignals::New(),
            signalMask: SignalSet(0),
            realSignalMask: SignalSet(0),
            savedSignalMask: SignalSet(0),
            haveSavedSignalMask: false,
            stop: None,
            exitState: TaskExitState::TaskExitNone,
            exitStatus: ExitStatus { Code: 0, Signo: 0 },
            groupStopPending: false,
            groupStopAcknowledged: false,
            trapStopPending: false,
            trapNotifyPending: false,
            interruptPending: false,
            SignalQueue: Queue::New(),
        };
        assert(0u64 & UNMASKABLE_MASK == 0) by (bit_vector);
        r
    }

    /// Interrupts the thread's blocker.
    pub fn interrupt(&mut self)
        ensures
            final(self)@ == old(self)@.interrupt(),
    {
        self.interruptPending = true;
    }

    /// As `interrupt`, for the thread that runs.
    pub fn interruptSelf(&mut self)
        ensures
            final(self)@ == old(self)@.interrupt(),
    {
        self.interruptPending = true;
    }

    /// Whether an interrupt waits; with `consume`, takes it.
    pub fn Interrupted(&mut self, consume: bool) -> (r: bool)
        ensures
            r == old(self)@.interruptPending,
            final(self)@ == old(self)@.afterInterrupted(consume),
    {
        let r = self.interruptPending;
        if consume {
            self.interruptPending = false;
        }
        r
    }

    /// Whether the thread has been killed.
    pub fn killedLocked(&self) -> (r: bool)
        ensures
            r == self@.killed(),
    {
        self.pendingSignals.pendingSet.0 & (1u64 << 8u64) != 0
    }

    /// Kills the thread without the group-wide effects that sending
    /// `SIGKILL` has.
    pub fn killLocked(&mut self)
        requires
            old(self)@.wf(),
        ensures
            final(self)@ == old(self)@.kill(),
            final(self)@.wf(),
    {
        match self.stop {
            Some(s) => {
                if s.Killable {
                    self.stop = None;
                }
            },
            None => {},
        }
        let _ = self.pendingSignals.Enque(SignalInfoPriv(Signal::SIGKILL), None);
        self.interruptPending = true;
    }

    /// Holds the thread in stop `s`.
    pub fn beginInternalStopLocked<S: TaskStop>(&mut self, s: &S)
        requires
            old(self)@.stop is None,
        ensures
            final(self)@ == (ThreadView {
                stop: Some(StopInForce { Type: s.kind(), Killable: s.killable() }),
                ..old(self)@
            }),
    {
        self.stop = Some(StopInForce { Type: s.Type(), Killable: s.Killable() });
    }

    /// Ends the stop that holds the thread.
    pub fn endInternalStopLocked(&mut self)
        requires
            old(self)@.stop is Some,
        ensures
            final(self)@ == (ThreadView { stop: None, ..old(self)@ }),
    {
        self.stop = None;
    }

    /// Whether a signal waits, for the thread or for its group, that the
    /// thread does not block.
    pub fn HasSignal(&self, group: &PendingSignals) -> (r: bool)
        ensures
            r == self@.hasSignal(group@),
    {
        (self.pendingSignals.pendingSet.0 | group.pendingSet.0) & !self.signalMask.0 != 0
    }
}

} // verus!
