//! The poll requests that the kernel has on the host's submission ring.

use vstd::prelude::*;
use crate::qlib::linux_def::EventMask;

verus! {

/// A request to be told when a host file descriptor is ready.
#[derive(Clone, Copy, Debug, PartialEq, Eq, Structural)]
pub struct PollRequest {
    /// Names the request on the ring.
    pub userdata: usize,
    pub fd: i32,
    /// The events asked for.
    pub mask: EventMask,
}

/// What goes onto the submission ring.
#[derive(Clone, Copy, Debug, PartialEq, Eq, Structural)]
pub enum RingOp {
    /// Ask for a poll.
    PollAdd(PollRequest),
    /// Take back the poll with this user data.
    PollRemove(u64),
}

/// The kernel's side of the submission ring: the polls that are
/// outstanding, and every operation submitted so far. The thread that
/// drives the host ring takes the operations from `submissions`.
pub struct IoUring {
    /// The user data of the next request.
    pub next: usize,
    pub polls: Vec<PollRequest>,
    pub submissions: Vec<RingOp>,
}

/// An `IoUring` as a value.
pub struct RingView {
    pub next: usize,
    /// The outstanding polls.
    pub polls: Set<PollRequest>,
    pub submissions: Seq<RingOp>,
}

impl View for IoUring {
    type V = RingView;

    open spec fn view(&self) -> RingView {
        RingView { next: self.next, polls: self.polls@.to_set(), submissions: self.submissions@ }
    }
}

impl RingView {
    /// Every outstanding poll was named before `next`.
    pub open spec fn wf(self) -> bool {
        forall|p: PollRequest| self.polls.contains(p) ==> p.userdata < self.next
    }

    /// The ring after a poll of `fd` for `mask` has been submitted.
    pub open spec fn pollAdd(self, fd: i32, mask: EventMask) -> RingView {
        let p = PollRequest { userdata: self.next, fd, mask };
        RingView {
            next: (self.next + 1) as usize,
            polls: self.polls.insert(p),
            submissions: self.submissions.push(RingOp::PollAdd(p)),
        }
    }

    /// The ring after the poll named `userdata` has been taken back.
    pub open spec fn pollRemove(self, userdata: u64) -> RingView {
        RingView {
            polls: self.polls.filter(|p: PollRequest| p.userdata != userdata),
            submissions: self.submissions.push(RingOp::PollRemove(userdata)),
            ..self
        }
    }
}

impl IoUring {
    /// A ring on which nothing has been submitted.
    pub fn New() -> (r: IoUring)
        ensures
            r@ == (RingView { next: 0, polls: Set::empty(), submissions: Seq::empty() }),
            r@.wf(),
    {
        let r = IoUring { next: 0, polls: Vec::new(), submissions: Vec::new() };
        assert(r@.polls =~= Set::<PollRequest>::empty());
        r
    }

    /// Submits a poll of `fd` for the events in `mask`, and returns the
    /// user data that names it.
    pub fn AsyncPollAdd(&mut self, fd: i32, mask: EventMask) -> (userdata: usize)
        requires
            old(self)@.next < usize::MAX,
        ensures
            userdata == old(self)@.next,
            final(self)@ == old(self)@.pollAdd(fd, mask),
    {
        let userdata = self.next;
        let p = PollRequest { userdata, fd, mask };
        self.polls.push(p);
        self.submissions.push(RingOp::PollAdd(p));
        self.next = self.next + 1;
        proof {
            let before = old(self).polls@;
            assert forall|q: PollRequest| self.polls@.to_set().contains(q) <==> before.to_set().insert(p).contains(q) by {
                if self.polls@.contains(q) {
                    let i = choose|i: int| 0 <= i < self.polls@.len() && self.polls@[i] == q;
                    if i < before.len() {
                        assert(before[i] == q);
                    }
                }
                if before.contains(q) {
                    let i = choose|i: int| 0 <= i < before.len() && before[i] == q;
                    assert(self.polls@[i] == q);
                }
                assert(self.polls@[before.len() as int] == p);
            }
            assert(self@.polls =~= old(self)@.pollAdd(fd, mask).polls);
        }
        userdata
    }

    /// Takes back the poll that `userdata` names.
    pub fn AsyncPollRemove(&mut self, userdata: u64)
        ensures
            final(self)@ == old(self)@.pollRemove(userdata),
    {
        let mut kept: Vec<PollRequest> = Vec::new();
        let n = self.polls.len();
        let mut i: usize = 0;
        while i < n
            invariant
                i <= n,
                n == self.polls@.len(),
                self.polls@ == old(self).polls@,
                self.next == old(self).next,
                self.submissions@ == old(self).submissions@,
                forall|q: PollRequest|
                    kept@.contains(q) <==> (exists|j: int|
                        0 <= j < i && self.polls@[j] == q && q.userdata != userdata),
            decreases n - i,
        {
            let p = self.polls[i];
            let ghost before = kept@;
            if p.userdata as u64 != userdata {
                kept.push(p);
            }
            proof {
                assert forall|q: PollRequest| kept@.contains(q) <==> (exists|j: int|
                    0 <= j < i + 1 && self.polls@[j] == q && q.userdata != userdata) by {
                    if kept@.contains(q) {
                        let k = choose|k: int| 0 <= k < kept@.len() && kept@[k] == q;
                        if k < before.len() {
                            assert(before[k] == q);
                            assert(before.contains(q));
                            let j = choose|j: int| 0 <= j < i && self.polls@[j] == q && q.userdata != userdata;
                            assert(0 <= j < i + 1 && self.polls@[j] == q && q.userdata != userdata);
                        } else {
                            assert(self.polls@[i as int] == q);
                        }
                    }
                    if exists|j: int| 0 <= j < i + 1 && self.polls@[j] == q && q.userdata != userdata {
                        let j = choose|j: int| 0 <= j < i + 1 && self.polls@[j] == q && q.userdata != userdata;
                        if j < i {
                            assert(before.contains(q));
                            let k = choose|k: int| 0 <= k < before.len() && before[k] == q;
                            assert(kept@[k] == q);
                        } else {
                            assert(kept@[kept@.len() - 1] == q);
                        }
                    }
                }
            }
            i = i + 1;
        }
        proof {
            let want = old(self)@.pollRemove(userdata).polls;
            assert forall|q: PollRequest| kept@.to_set().contains(q) <==> want.contains(q) by {
                if kept@.contains(q) {
                    let j = choose|j: int| 0 <= j < n && self.polls@[j] == q && q.userdata != userdata;
                    assert(self.polls@.contains(q));
                }
                if want.contains(q) {
                    assert(self.polls@.contains(q));
                    let j = choose|j: int| 0 <= j < self.polls@.len() && self.polls@[j] == q;
                    assert(0 <= j < n && self.polls@[j] == q && q.userdata != userdata);
                }
            }
            assert(kept@.to_set() =~= want);
        }
        self.polls = kept;
        self.submissions.push(RingOp::PollRemove(userdata));
    }
}

} // verus!
