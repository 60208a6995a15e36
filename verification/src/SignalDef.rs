//! Queues of pending signals.

use vstd::prelude::*;
use crate::qlib::common::Error;
use crate::qlib::common::SysErr;
use crate::qlib::linux_def::Bit;
use crate::qlib::linux_def::LowestBitFrom;
use crate::qlib::linux_def::Signal;
use crate::qlib::linux_def::SignalInfo;
use crate::qlib::linux_def::SignalSet;
use crate::qlib::linux_def::lemma_has_clear_bit;
use crate::qlib::linux_def::lemma_has_ops;
use crate::qlib::linux_def::lemma_has_or_bit;
use crate::qlib::linux_def::lemma_has_zero;
use crate::qlib::linux_def::lemma_lowest_bit_from;
use crate::qlib::linux_def::lemma_zero_iff_no_bits;

verus! {

/// Handle of an interval timer that raises signals.
#[derive(Clone, Copy, Debug, PartialEq, Eq, Structural)]
pub struct IntervalTimer(pub u64);

/// One queued signal, with the timer that raised it, if any.
#[derive(Clone, Copy, Debug, PartialEq, Eq, Structural)]
pub struct PendingSignal {
    pub sigInfo: SignalInfo,
    pub timer: Option<IntervalTimer>,
}

/// How many instances of one standard signal can wait.
pub const STD_SIGNAL_CAP: usize = 1;

/// How many instances of one real-time signal can wait.
pub const RT_SIGNAL_CAP: usize = 32;

/// The signals waiting for a thread or for a thread group: one queue for
/// each signal number, and the set of numbers whose queue is not empty.
pub struct PendingSignals {
    pub signals: Vec<Vec<PendingSignal>>,
    pub pendingSet: SignalSet,
}

/// What a `PendingSignals` holds: `queues[n - 1]` is the queue of signal `n`.
pub struct PendingView {
    pub queues: Seq<Seq<PendingSignal>>,
    pub pendingSet: SignalSet,
}

impl PendingView {
    /// The most instances of the signal at position `i` that can wait.
    pub open spec fn cap(i: int) -> int {
        if i < 31 {
            1
        } else {
            32
        }
    }

    /// 64 queues, none over its limit, each holding instances of its own
    /// signal only, and `pendingSet` holds exactly the signals whose queue
    /// is not empty.
    pub open spec fn wf(self) -> bool {
        &&& self.queues.len() == 64
        &&& forall|i: int|
            0 <= i < 64 ==> {
                &&& (#[trigger] self.queues[i]).len() <= Self::cap(i)
                &&& (self.pendingSet.0 & Bit(i as u64) != 0 <==> self.queues[i].len() > 0)
            }
        &&& forall|i: int, k: int|
            0 <= i < 64 && 0 <= k < self.queues[i].len() ==> (#[trigger] self.queues[i][k]).sigInfo.Signo == i + 1
    }

    /// Nothing waits.
    pub open spec fn empty() -> PendingView {
        PendingView { queues: Seq::new(64, |i: int| Seq::<PendingSignal>::empty()), pendingSet: SignalSet(0) }
    }

    /// Whether a signal with this number would be taken into its queue.
    pub open spec fn accepts(self, signo: int) -> bool {
        0 < signo <= 64 && self.queues[signo - 1].len() < Self::cap(signo - 1)
    }

    /// The queues after `info` has arrived: appended to its signal's queue
    /// if that has room, else dropped.
    pub open spec fn enque(self, info: SignalInfo, timer: Option<IntervalTimer>) -> PendingView {
        if self.accepts(info.Signo as int) {
            let i = info.Signo - 1;
            PendingView {
                queues: self.queues.update(i, self.queues[i].push(PendingSignal { sigInfo: info, timer })),
                pendingSet: SignalSet(self.pendingSet.0 | Bit(i as u64)),
            }
        } else {
            self
        }
    }

    /// The signals that wait and that `mask` does not block.
    pub open spec fn deliverable(self, mask: SignalSet) -> u64 {
        self.pendingSet.0 & !mask.0
    }

    /// Position of the lowest-numbered signal that waits unblocked by
    /// `mask`; 64 if there is none.
    pub open spec fn next(self, mask: SignalSet) -> int {
        LowestBitFrom(self.deliverable(mask), 0) as int
    }

    /// The signal that `deque` hands out under `mask`, if any.
    pub open spec fn front(self, mask: SignalSet) -> Option<SignalInfo> {
        if self.deliverable(mask) == 0 {
            None
        } else {
            Some(self.queues[self.next(mask)][0].sigInfo)
        }
    }

    /// The queues after the signal `front(mask)` has left.
    pub open spec fn deque(self, mask: SignalSet) -> PendingView {
        if self.deliverable(mask) == 0 {
            self
        } else {
            let i = self.next(mask);
            let rest = self.queues[i].drop_first();
            PendingView {
                queues: self.queues.update(i, rest),
                pendingSet: if rest.len() == 0 {
                    SignalSet(self.pendingSet.0 & !Bit(i as u64))
                } else {
                    self.pendingSet
                },
            }
        }
    }

    /// The queues after every instance of signal `signo` has been dropped.
    pub open spec fn discard(self, signo: int) -> PendingView {
        if 0 < signo <= 64 {
            PendingView {
                queues: self.queues.update(signo - 1, Seq::empty()),
                pendingSet: SignalSet(self.pendingSet.0 & !Bit((signo - 1) as u64)),
            }
        } else {
            self
        }
    }

    /// `enque` keeps the queues well formed.
    pub proof fn lemma_enque_wf(self, info: SignalInfo, timer: Option<IntervalTimer>)
        requires
            self.wf(),
        ensures
            self.enque(info, timer).wf(),
    {
        if self.accepts(info.Signo as int) {
            let i = (info.Signo - 1) as int;
            let n = self.enque(info, timer);
            assert forall|j: int| 0 <= j < 64 implies {
                &&& (#[trigger] n.queues[j]).len() <= Self::cap(j)
                &&& (n.pendingSet.0 & Bit(j as u64) != 0 <==> n.queues[j].len() > 0)
            } by {
                lemma_has_or_bit(self.pendingSet.0, i as u64, j as u64);
                assert(self.queues[j].len() <= Self::cap(j));
            }
        }
    }

    /// Under a non-empty `deliverable`, `next` is a position whose queue is
    /// not empty and whose signal `mask` does not block.
    pub proof fn lemma_next(self, mask: SignalSet)
        requires
            self.wf(),
            self.deliverable(mask) != 0,
        ensures
            0 <= self.next(mask) < 64,
            self.queues[self.next(mask)].len() > 0,
            self.pendingSet.0 & Bit(self.next(mask) as u64) != 0,
            mask.0 & Bit(self.next(mask) as u64) == 0,
    {
        let a = self.deliverable(mask);
        lemma_lowest_bit_from(a, 0);
        lemma_zero_iff_no_bits(a);
        let i = LowestBitFrom(a, 0);
        if i >= 64 {
            assert forall|j: u64| j < 64 implies a & #[trigger] Bit(j) == 0 by {}
        }
        lemma_has_ops(self.pendingSet.0, mask.0, i);
        assert(self.queues[i as int].len() > 0);
    }

    /// A signal handed out has a number from 1 to 64.
    pub proof fn lemma_front_valid(self, mask: SignalSet)
        requires
            self.wf(),
        ensures
            self.front(mask) matches Some(info) ==> 0 < info.Signo <= 64 && info.Signo == self.next(mask) + 1,
    {
        if self.deliverable(mask) != 0 {
            self.lemma_next(mask);
            assert(self.queues[self.next(mask)][0].sigInfo.Signo == self.next(mask) + 1);
        }
    }

    /// `deque` keeps the queues well formed.
    pub proof fn lemma_deque_wf(self, mask: SignalSet)
        requires
            self.wf(),
        ensures
            self.deque(mask).wf(),
    {
        if self.deliverable(mask) != 0 {
            self.lemma_next(mask);
            let i = self.next(mask);
            let n = self.deque(mask);
            assert forall|j: int| 0 <= j < 64 implies {
                &&& (#[trigger] n.queues[j]).len() <= Self::cap(j)
                &&& (n.pendingSet.0 & Bit(j as u64) != 0 <==> n.queues[j].len() > 0)
            } by {
                lemma_has_clear_bit(self.pendingSet.0, i as u64, j as u64);
                assert(self.queues[j].len() <= Self::cap(j));
            }
        }
    }

    /// `discard` keeps the queues well formed.
    pub proof fn lemma_discard_wf(self, signo: int)
        requires
            self.wf(),
        ensures
            self.discard(signo).wf(),
    {
        if 0 < signo <= 64 {
            let i = signo - 1;
            let n = self.discard(signo);
            assert forall|j: int| 0 <= j < 64 implies {
                &&& (#[trigger] n.queues[j]).len() <= Self::cap(j)
                &&& (n.pendingSet.0 & Bit(j as u64) != 0 <==> n.queues[j].len() > 0)
            } by {
                lemma_has_clear_bit(self.pendingSet.0, i as u64, j as u64);
                assert(self.queues[j].len() <= Self::cap(j));
            }
        }
    }
}

impl View for PendingSignals {
    type V = PendingView;

    open spec fn view(&self) -> PendingView {
        PendingView {
            queues: Seq::new(self.signals@.len(), |i: int| self.signals@[i]@),
            pendingSet: self.pendingSet,
        }
    }
}

impl PendingSignals {
    /// Queues in which nothing waits.
    pub fn New() -> (r: PendingSignals)
        ensures
            r@ == PendingView::empty(),
            r@.wf(),
    {
        let mut signals: Vec<Vec<PendingSignal>> = Vec::new();
        let mut i: usize = 0;
        while i < 64
            invariant
                i <= 64,
                signals@.len() == i,
                forall|j: int| 0 <= j < i ==> (#[trigger] signals@[j])@ == Seq::<PendingSignal>::empty(),
            decreases 64 - i,
        {
            signals.push(Vec::new());
            i = i + 1;
        }
        let r = PendingSignals { signals, pendingSet: SignalSet(0) };
        proof {
            assert(r@.queues =~= PendingView::empty().queues);
            assert forall|j: int| 0 <= j < 64 implies (r@.pendingSet.0 & Bit(j as u64) != 0 <==> (#[trigger] r@.queues[j]).len() > 0) by {
                lemma_has_zero(j as u64);
            }
        }
        r
    }

    /// Queues `info` for delivery.
    ///
    /// `Err(EINVAL)` for a number outside 1 to 64; `Ok(false)` where the
    /// signal's queue is full (a standard signal that already waits, or 32
    /// instances of a real-time one), and nothing changes; else `Ok(true)`.
    pub fn Enque(&mut self, info: SignalInfo, timer: Option<IntervalTimer>) -> (r: Result<bool, Error>)
        requires
            old(self)@.wf(),
        ensures
            final(self)@ == old(self)@.enque(info, timer),
            final(self)@.wf(),
            !Signal(info.Signo).valid() ==> r == Err::<bool, Error>(Error::SysError(SysErr::EINVAL)),
            Signal(info.Signo).valid() ==> r == Ok::<bool, Error>(old(self)@.accepts(info.Signo as int)),
    {
        proof {
            old(self)@.lemma_enque_wf(info, timer);
        }
        let sig = Signal(info.Signo);
        if !sig.IsValid() {
            return Err(Error::SysError(SysErr::EINVAL));
        }
        let i: usize = sig.Index() as usize;
        assert(self@.queues[i as int] == self.signals@[i as int]@);
        let len = self.signals[i].len();
        if (sig.0 < Signal::FIRST_RT_SIGNAL && len >= STD_SIGNAL_CAP) || len >= RT_SIGNAL_CAP {
            return Ok(false);
        }
        self.signals[i].push(PendingSignal { sigInfo: info, timer });
        self.pendingSet = SignalSet(self.pendingSet.0 | (1u64 << (i as u64)));
        proof {
            assert(self@.queues =~= old(self)@.enque(info, timer).queues);
        }
        Ok(true)
    }

    /// Takes out the lowest-numbered waiting signal that `mask` does not
    /// block, oldest instance first; `None` if every waiting signal is
    /// blocked.
    pub fn Deque(&mut self, mask: SignalSet) -> (r: Option<SignalInfo>)
        requires
            old(self)@.wf(),
        ensures
            r == old(self)@.front(mask),
            final(self)@ == old(self)@.deque(mask),
            final(self)@.wf(),
    {
        proof {
            old(self)@.lemma_deque_wf(mask);
        }
        let avail: u64 = self.pendingSet.0 & !mask.0;
        if avail == 0 {
            return None;
        }
        proof {
            old(self)@.lemma_next(mask);
            lemma_lowest_bit_from(avail, 0);
        }
        let mut i: usize = 0;
        while i < 64 && avail & (1u64 << (i as u64)) == 0
            invariant
                i <= 64,
                LowestBitFrom(avail, 0) < 64,
                LowestBitFrom(avail, i as u64) == LowestBitFrom(avail, 0),
            decreases 64 - i,
        {
            i = i + 1;
        }
        assert(i as int == self@.next(mask));
        assert(self@.queues[i as int] == self.signals@[i as int]@);
        let ps = self.signals[i].remove(0);
        if self.signals[i].len() == 0 {
            self.pendingSet = SignalSet(self.pendingSet.0 & !(1u64 << (i as u64)));
        }
        proof {
            assert(self.signals@[i as int]@ =~= old(self)@.queues[i as int].drop_first());
            assert(self@.queues =~= old(self)@.deque(mask).queues);
        }
        Some(ps.sigInfo)
    }

    /// Drops every waiting instance of `sig`.
    pub fn Discard(&mut self, sig: Signal)
        requires
            old(self)@.wf(),
            sig.valid(),
        ensures
            final(self)@ == old(self)@.discard(sig.0 as int),
            final(self)@.wf(),
    {
        proof {
            old(self)@.lemma_discard_wf(sig.0 as int);
        }
        let i: usize = sig.Index() as usize;
        self.signals[i].clear();
        self.pendingSet = SignalSet(self.pendingSet.0 & !(1u64 << (i as u64)));
        proof {
            assert(self@.queues =~= old(self)@.discard(sig.0 as int).queues);
        }
    }
}

} // verus!
