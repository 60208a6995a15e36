//! Tells the waiters on host file descriptors when those become ready, by
//! way of polls on the host's submission ring.

use std::collections::BTreeMap;
use vstd::prelude::*;
use crate::fs::attr::HostInodeOp;
use crate::kernel::waiter::EventsOf;
use crate::kernel::waiter::NotifyAll;
use crate::kernel::waiter::Queue;
use crate::kernel::waiter::WaitEntry;
use crate::kernel::waiter::Without;
use crate::qlib::common::Error;
use crate::qlib::linux_def::EventMask;
use crate::uring_async::IoUring;
use crate::uring_async::PollRequest;
use crate::uring_async::RingView;

verus! {

/// The events that a host poll can report to a waiter.
pub const ALL_EVENTS: EventMask = 0x1f;

/// The events of the kernel that the host's poll bits `e` stand for.
pub open spec fn FromLinux(e: u32) -> EventMask {
    (e as u64) & ALL_EVENTS
}

/// Turns the poll bits of the host into events of the kernel.
pub fn EventMaskFromLinux(e: u32) -> (r: EventMask)
    ensures
        r == FromLinux(e),
{
    (e as u64) & ALL_EVENTS
}

/// What the notifier keeps of one host file descriptor.
pub struct GuestFdInfo {
    /// The waiters on the descriptor.
    pub queue: Queue,
    /// The events that the outstanding poll asks for; 0 without a poll.
    pub mask: EventMask,
    /// The inode operations that own the descriptor; they may be gone.
    pub iops: HostInodeOp,
    /// The user data of the outstanding poll.
    pub userdata: Option<usize>,
}

/// A `GuestFdInfo` as a value.
pub struct FdInfoView {
    pub queue: Seq<WaitEntry>,
    pub mask: EventMask,
    pub iops: HostInodeOp,
    pub userdata: Option<usize>,
}

impl View for GuestFdInfo {
    type V = FdInfoView;

    open spec fn view(&self) -> FdInfoView {
        FdInfoView { queue: self.queue@, mask: self.mask, iops: self.iops, userdata: self.userdata }
    }
}

/// Everything needed to notify waiters of events on the descriptors that
/// are watched.
pub struct NotifierInternal {
    /// From each descriptor to its waiters and its poll.
    pub fdMap: BTreeMap<i32, GuestFdInfo>,
}

impl View for NotifierInternal {
    type V = Map<i32, FdInfoView>;

    open spec fn view(&self) -> Map<i32, FdInfoView> {
        Map::new(|fd: i32| self.fdMap@.contains_key(fd), |fd: i32| self.fdMap@[fd]@)
    }
}

impl NotifierInternal {
    /// Whether `fd` is watched.
    fn has(&self, fd: i32) -> (r: bool)
        ensures
            r == self@.contains_key(fd),
    {
        self.fdMap.contains_key(&fd)
    }

    /// The mask and the user data of the poll of `fd`, if `fd` is watched.
    fn poll(&self, fd: i32) -> (r: Option<(EventMask, Option<usize>)>)
        ensures
            r == if self@.contains_key(fd) {
                Some((self@[fd].mask, self@[fd].userdata))
            } else {
                None
            },
    {
        match self.fdMap.get(&fd) {
            Some(fi) => Some((fi.mask, fi.userdata)),
            None => None,
        }
    }

    /// The events that the waiters on `fd` ask for, if `fd` is watched.
    fn events(&self, fd: i32) -> (r: Option<EventMask>)
        ensures
            r == if self@.contains_key(fd) {
                Some(EventsOf(self@[fd].queue))
            } else {
                None
            },
    {
        match self.fdMap.get(&fd) {
            Some(fi) => Some(fi.queue.Events()),
            None => None,
        }
    }

    /// Takes out what is kept of `fd`.
    fn take(&mut self, fd: i32) -> (r: Option<GuestFdInfo>)
        ensures
            final(self)@ == old(self)@.remove(fd),
            match r {
                Some(fi) => old(self)@.contains_key(fd) && fi@ == old(self)@[fd],
                None => !old(self)@.contains_key(fd),
            },
    {
        let r = self.fdMap.remove(&fd);
        assert(self@ =~= old(self)@.remove(fd));
        r
    }

    /// Keeps `fi` of `fd`.
    fn put(&mut self, fd: i32, fi: GuestFdInfo)
        ensures
            final(self)@ == old(self)@.insert(fd, fi@),
    {
        let _ = self.fdMap.insert(fd, fi);
        assert(self@ =~= old(self)@.insert(fd, fi@));
    }
}

/// The notifier of the kernel.
pub struct Notifier(pub NotifierInternal);

impl View for Notifier {
    type V = Map<i32, FdInfoView>;

    open spec fn view(&self) -> Map<i32, FdInfoView> {
        self.0@
    }
}

/// The polls on the ring are those of the watched descriptors.
///
/// A descriptor has a poll exactly when its mask is not 0. The poll is
/// outstanding on the ring with the descriptor's mask, and no descriptor
/// has more than one. The ring holds no other poll.
pub open spec fn Consistent(n: Map<i32, FdInfoView>, r: RingView) -> bool {
    &&& r.wf()
    &&& forall|fd: i32| #[trigger]
        n.contains_key(fd) ==> ((n[fd].mask != 0) <==> (n[fd].userdata is Some))
    &&& forall|fd: i32| #[trigger]
        n.contains_key(fd) && n[fd].userdata is Some ==> r.polls.contains(
            PollRequest { userdata: n[fd].userdata->0, fd, mask: n[fd].mask },
        )
    &&& forall|p: PollRequest| #[trigger]
        r.polls.contains(p) ==> n.contains_key(p.fd) && n[p.fd].userdata == Some(p.userdata) && n[p.fd].mask
            == p.mask
    &&& forall|p: PollRequest, q: PollRequest|
        r.polls.contains(p) && r.polls.contains(q) && p.userdata == q.userdata ==> p == q
}

/// A descriptor has at most one outstanding poll.
pub proof fn lemma_one_poll_per_fd(n: Map<i32, FdInfoView>, r: RingView, p: PollRequest, q: PollRequest)
    requires
        Consistent(n, r),
        r.polls.contains(p),
        r.polls.contains(q),
        p.fd == q.fd,
    ensures
        p == q,
{
}

/// The descriptors after `fd` has come under watch for `iops`: with the
/// waiters `queue` that the inode operations have, and without a poll.
pub open spec fn Added(n: Map<i32, FdInfoView>, fd: i32, iops: HostInodeOp, queue: Seq<WaitEntry>) -> Map<
    i32,
    FdInfoView,
> {
    n.insert(fd, FdInfoView { queue, mask: 0, iops, userdata: None })
}

/// The ring after the poll of a descriptor with `userdata`, if it has one,
/// has been taken back.
pub open spec fn Cancelled(r: RingView, userdata: Option<usize>) -> RingView {
    match userdata {
        Some(u) => r.pollRemove(u as u64),
        None => r,
    }
}

/// The ring after `Waitfd(fd, mask)`.
///
/// Nothing is submitted if `fd` has `mask` already. Else the poll that
/// `fd` has, if any, is taken back, and a poll for `mask` is submitted
/// unless `mask` is 0.
pub open spec fn WaitfdRing(n: Map<i32, FdInfoView>, r: RingView, fd: i32, mask: EventMask) -> RingView {
    if n[fd].mask == mask {
        r
    } else {
        let r1 = if n[fd].mask != 0 {
            Cancelled(r, n[fd].userdata)
        } else {
            r
        };
        if mask != 0 {
            r1.pollAdd(fd, mask)
        } else {
            r1
        }
    }
}

/// The descriptors after `Waitfd(fd, mask)`: `fd` has `mask`, and the user
/// data of the poll submitted for it, if one was.
pub open spec fn WaitfdMap(n: Map<i32, FdInfoView>, r: RingView, fd: i32, mask: EventMask) -> Map<i32, FdInfoView> {
    if n[fd].mask == mask {
        n
    } else {
        n.insert(
            fd,
            FdInfoView {
                mask,
                userdata: if mask != 0 {
                    Some(r.next)
                } else if n[fd].mask != 0 {
                    None
                } else {
                    n[fd].userdata
                },
                ..n[fd]
            },
        )
    }
}

/// `Waitfd` keeps the polls on the ring those of the watched descriptors.
#[verifier::rlimit(50)]
pub proof fn lemma_waitfd_consistent(n: Map<i32, FdInfoView>, r: RingView, fd: i32, mask: EventMask)
    requires
        Consistent(n, r),
        n.contains_key(fd),
        r.next < usize::MAX,
    ensures
        Consistent(WaitfdMap(n, r, fd, mask), WaitfdRing(n, r, fd, mask)),
{
    let e = n[fd];
    if e.mask != mask {
        let n2 = WaitfdMap(n, r, fd, mask);
        let r2 = WaitfdRing(n, r, fd, mask);
        let r1 = if e.mask != 0 {
            Cancelled(r, e.userdata)
        } else {
            r
        };
        // No poll of `fd` is left once its own has been taken back.
        assert forall|p: PollRequest| r1.polls.contains(p) implies p.fd != fd && r.polls.contains(p) by {
            if p.fd == fd {
                assert(n.contains_key(p.fd));
            }
        }
        // The polls of the other descriptors stay.
        assert forall|p: PollRequest| r.polls.contains(p) && p.fd != fd implies r1.polls.contains(p) by {
            if e.userdata is Some && p.userdata == e.userdata->0 {
                let own = PollRequest { userdata: e.userdata->0, fd, mask: e.mask };
                assert(r.polls.contains(own));
            }
        }
        assert forall|g: i32| #[trigger] n2.contains_key(g) implies ((n2[g].mask != 0) <==> (n2[g].userdata is Some)) by {
            if g != fd {
                assert(n.contains_key(g));
            }
        }
        assert forall|g: i32| #[trigger] n2.contains_key(g) && n2[g].userdata is Some implies r2.polls.contains(
            PollRequest { userdata: n2[g].userdata->0, fd: g, mask: n2[g].mask },
        ) by {
            if g != fd {
                assert(n.contains_key(g));
                let p = PollRequest { userdata: n[g].userdata->0, fd: g, mask: n[g].mask };
                assert(r.polls.contains(p));
                assert(r1.polls.contains(p));
            }
        }
        assert forall|p: PollRequest| #[trigger] r2.polls.contains(p) implies n2.contains_key(p.fd) && n2[p.fd].userdata
            == Some(p.userdata) && n2[p.fd].mask == p.mask by {
            if r1.polls.contains(p) {
                assert(r.polls.contains(p));
            }
        }
        assert forall|p: PollRequest, q: PollRequest|
            r2.polls.contains(p) && r2.polls.contains(q) && p.userdata == q.userdata implies p == q by {
            if r1.polls.contains(p) {
                assert(r.polls.contains(p));
            }
            if r1.polls.contains(q) {
                assert(r.polls.contains(q));
            }
        }
        assert forall|p: PollRequest| r2.polls.contains(p) implies p.userdata < r2.next by {
            if r1.polls.contains(p) {
                assert(r.polls.contains(p));
            }
        }
    }
}

/// A second `Waitfd` for the same mask submits nothing and changes
/// nothing: of two such calls in a row, the first alone reaches the ring.
pub proof fn lemma_waitfd_twice(n: Map<i32, FdInfoView>, r: RingView, fd: i32, mask: EventMask)
    requires
        n.contains_key(fd),
    ensures
        WaitfdRing(WaitfdMap(n, r, fd, mask), WaitfdRing(n, r, fd, mask), fd, mask) == WaitfdRing(n, r, fd, mask),
        WaitfdMap(WaitfdMap(n, r, fd, mask), WaitfdRing(n, r, fd, mask), fd, mask) == WaitfdMap(n, r, fd, mask),
{
}

/// Two calls of `Waitfd` in a row for the same mask, on a descriptor that
/// had no poll, submit one poll between them and take none back: the first
/// submits the poll for the mask, and the second reaches neither the ring
/// nor the descriptors.
pub proof fn lemma_waitfd_twice_submits_once(n: Map<i32, FdInfoView>, r: RingView, fd: i32, m: EventMask)
    requires
        n.contains_key(fd),
        n[fd].mask == 0,
        n[fd].userdata is None,
        m != 0,
    ensures
        ({
            let poll = PollRequest { userdata: r.next, fd, mask: m };
            let n1 = WaitfdMap(n, r, fd, m);
            let r1 = WaitfdRing(n, r, fd, m);
            &&& r1.submissions == r.submissions.push(crate::uring_async::RingOp::PollAdd(poll))
            &&& r1.polls == r.polls.insert(poll)
            &&& n1[fd].mask == m
            &&& n1[fd].userdata == Some(r.next)
            &&& WaitfdRing(n1, r1, fd, m) == r1
            &&& WaitfdMap(n1, r1, fd, m) == n1
        }),
{
}

impl Notifier {
    /// A notifier that watches nothing.
    pub fn New() -> (r: Notifier)
        ensures
            r@ == Map::<i32, FdInfoView>::empty(),
    {
        let r = Notifier(NotifierInternal { fdMap: BTreeMap::new() });
        assert(r@ =~= Map::<i32, FdInfoView>::empty());
        r
    }

    /// Makes the poll of `fd` ask for `mask`.
    ///
    /// Nothing happens if it asks for `mask` already. Else the poll that
    /// the descriptor has is taken back, and unless `mask` is 0 a poll for
    /// `mask` is submitted and noted. Afterwards the descriptor has a poll
    /// exactly if `mask` is not 0; that poll is the only one for `fd` on
    /// the ring, and asks for `mask`. The other descriptors are as they
    /// were.
    pub fn Waitfd(&mut self, ring: &mut IoUring, fd: i32, mask: EventMask) -> (r: Result<(), Error>)
        requires
            old(self)@.contains_key(fd),
            Consistent(old(self)@, old(ring)@),
            old(ring)@.next < usize::MAX,
        ensures
            r == Ok::<(), Error>(()),
            final(self)@ == WaitfdMap(old(self)@, old(ring)@, fd, mask),
            final(ring)@ == WaitfdRing(old(self)@, old(ring)@, fd, mask),
            Consistent(final(self)@, final(ring)@),
            final(self)@.dom() == old(self)@.dom(),
            final(self)@[fd].mask == mask,
            final(self)@[fd].userdata is Some <==> mask != 0,
            mask != 0 ==> final(ring)@.polls.contains(
                PollRequest { userdata: final(self)@[fd].userdata->0, fd, mask },
            ),
            forall|p: PollRequest| #[trigger] final(ring)@.polls.contains(p) && p.fd == fd ==> p.mask == mask && Some(
                p.userdata,
            ) == final(self)@[fd].userdata,
            forall|g: i32| g != fd && old(self)@.contains_key(g) ==> #[trigger] final(self)@[g] == old(self)@[g],
    {
        proof {
            lemma_waitfd_consistent(old(self)@, old(ring)@, fd, mask);
            assert(WaitfdMap(old(self)@, old(ring)@, fd, mask).dom() =~= old(self)@.dom());
            assert(WaitfdMap(old(self)@, old(ring)@, fd, mask).contains_key(fd));
        }
        let (current, userdata) = match self.0.poll(fd) {
            Some(p) => p,
            None => {
                return Ok(());
            },
        };
        if current == mask {
            return Ok(());
        }
        let mut fi = match self.0.take(fd) {
            Some(fi) => fi,
            None => {
                return Ok(());
            },
        };
        if fi.mask != 0 {
            let userdata = fi.userdata.take();
            match userdata {
                Some(idx) => {
                    ring.AsyncPollRemove(idx as u64);
                },
                None => {},
            }
        }
        if mask != 0 {
            let idx = ring.AsyncPollAdd(fd, mask);
            fi.userdata = Some(idx);
        }
        fi.mask = mask;
        self.0.put(fd, fi);
        proof {
            assert(self@ =~= WaitfdMap(old(self)@, old(ring)@, fd, mask));
        }
        Ok(())
    }

    /// Brings the poll of `fd` in line with what its waiters ask for now.
    /// A descriptor that is not watched is left alone.
    pub fn UpdateFD(&mut self, ring: &mut IoUring, fd: i32) -> (r: Result<(), Error>)
        requires
            Consistent(old(self)@, old(ring)@),
            old(ring)@.next < usize::MAX,
        ensures
            r == Ok::<(), Error>(()),
            old(self)@.contains_key(fd) ==> {
                &&& final(self)@ == WaitfdMap(old(self)@, old(ring)@, fd, EventsOf(old(self)@[fd].queue))
                &&& final(ring)@ == WaitfdRing(old(self)@, old(ring)@, fd, EventsOf(old(self)@[fd].queue))
            },
            !old(self)@.contains_key(fd) ==> final(self)@ == old(self)@ && final(ring)@ == old(ring)@,
            Consistent(final(self)@, final(ring)@),
    {
        let mask = match self.0.events(fd) {
            None => {
                return Ok(());
            },
            Some(mask) => mask,
        };
        self.Waitfd(ring, fd, mask)
    }

    /// Puts `fd`, a descriptor of `iops`, under watch. `queue` is the queue
    /// of the waiters on `iops`; the notifier keeps it from now on, with
    /// the waiters it has, and no poll is asked for before `UpdateFD`.
    pub fn AddFD(&mut self, ring: &IoUring, fd: i32, iops: &HostInodeOp, queue: Queue)
        requires
            !old(self)@.contains_key(fd),
            Consistent(old(self)@, ring@),
        ensures
            final(self)@ == Added(old(self)@, fd, *iops, queue@),
            Consistent(final(self)@, ring@),
    {
        self.0.put(fd, GuestFdInfo { queue, mask: 0, iops: *iops, userdata: None });
        proof {
            let n = old(self)@;
            let n2 = self@;
            assert forall|g: i32| #[trigger] n2.contains_key(g) implies ((n2[g].mask != 0) <==> (n2[g].userdata is Some)) by {
                if g != fd {
                    assert(n.contains_key(g));
                }
            }
            assert forall|g: i32| #[trigger] n2.contains_key(g) && n2[g].userdata is Some implies ring@.polls.contains(
                PollRequest { userdata: n2[g].userdata->0, fd: g, mask: n2[g].mask },
            ) by {
                if g != fd {
                    assert(n.contains_key(g));
                }
            }
        }
    }

    /// Takes `fd` from under watch, and takes back its poll if it has one.
    #[verifier::rlimit(50)]
    pub fn RemoveFD(&mut self, ring: &mut IoUring, fd: i32)
        requires
            old(self)@.contains_key(fd),
            Consistent(old(self)@, old(ring)@),
        ensures
            final(self)@ == old(self)@.remove(fd),
            final(ring)@ == Cancelled(old(ring)@, old(self)@[fd].userdata),
            Consistent(final(self)@, final(ring)@),
    {
        let mut fi = match self.0.take(fd) {
            Some(fi) => fi,
            None => {
                return ;
            },
        };
        let userdata = fi.userdata.take();
        match userdata {
            None => {},
            Some(idx) => {
                ring.AsyncPollRemove(idx as u64);
            },
        }
        proof {
            let n = old(self)@;
            let r = old(ring)@;
            let n2 = self@;
            let r2 = ring@;
            let e = n[fd];
            assert forall|p: PollRequest| r2.polls.contains(p) implies p.fd != fd && r.polls.contains(p) by {
                if p.fd == fd {
                    assert(n.contains_key(p.fd));
                }
            }
            assert forall|p: PollRequest| r.polls.contains(p) && p.fd != fd implies r2.polls.contains(p) by {
                if e.userdata is Some && p.userdata == e.userdata->0 {
                    let own = PollRequest { userdata: e.userdata->0, fd, mask: e.mask };
                    assert(r.polls.contains(own));
                }
            }
            assert forall|g: i32| #[trigger] n2.contains_key(g) implies ((n2[g].mask != 0) <==> (n2[g].userdata is Some)) by {
                assert(n.contains_key(g));
            }
            assert forall|g: i32| #[trigger] n2.contains_key(g) && n2[g].userdata is Some implies r2.polls.contains(
                PollRequest { userdata: n2[g].userdata->0, fd: g, mask: n2[g].mask },
            ) by {
                assert(n.contains_key(g));
                let p = PollRequest { userdata: n[g].userdata->0, fd: g, mask: n[g].mask };
                assert(r.polls.contains(p));
            }
            assert forall|p: PollRequest| #[trigger] r2.polls.contains(p) implies n2.contains_key(p.fd) && n2[p.fd].userdata
                == Some(p.userdata) && n2[p.fd].mask == p.mask by {
                assert(r.polls.contains(p));
            }
            assert forall|p: PollRequest, q: PollRequest|
                r2.polls.contains(p) && r2.polls.contains(q) && p.userdata == q.userdata implies p == q by {
                assert(r.polls.contains(p) && r.polls.contains(q));
            }
            assert forall|p: PollRequest| r2.polls.contains(p) implies p.userdata < r2.next by {
                assert(r.polls.contains(p));
            }
        }
    }

    /// Tells the waiters on `fd` of the host's poll bits `mask`. A
    /// descriptor that is not watched is left alone.
    pub fn Notify(&mut self, fd: i32, mask: EventMask)
        ensures
            final(self)@ == if old(self)@.contains_key(fd) {
                old(self)@.insert(
                    fd,
                    FdInfoView {
                        queue: NotifyAll(old(self)@[fd].queue, FromLinux((mask & 0xffff_ffff) as u32)),
                        ..old(self)@[fd]
                    },
                )
            } else {
                old(self)@
            },
    {
        match self.0.take(fd) {
            None => {
                assert(self@ =~= old(self)@);
            },
            Some(mut fi) => {
                let low: u64 = mask & 0xffff_ffff;
                assert(low <= 0xffff_ffff) by (bit_vector)
                    requires
                        low == mask & 0xffff_ffff,
                ;
                fi.queue.Notify(EventMaskFromLinux(low as u32));
                self.0.put(fd, fi);
                assert(self@ =~= old(self)@.insert(
                    fd,
                    FdInfoView {
                        queue: NotifyAll(old(self)@[fd].queue, FromLinux((mask & 0xffff_ffff) as u32)),
                        ..old(self)@[fd]
                    },
                ));
            },
        }
    }

    /// Adds waiter `e` to the waiters on `fd`, asking for `mask`.
    pub fn EventRegister(&mut self, fd: i32, e: &WaitEntry, mask: EventMask)
        ensures
            final(self)@ == if old(self)@.contains_key(fd) {
                old(self)@.insert(
                    fd,
                    FdInfoView {
                        queue: old(self)@[fd].queue.push(WaitEntry { id: e.id, mask, triggered: 0 }),
                        ..old(self)@[fd]
                    },
                )
            } else {
                old(self)@
            },
    {
        match self.0.take(fd) {
            None => {
                assert(self@ =~= old(self)@);
            },
            Some(mut fi) => {
                fi.queue.EventRegister(e, mask);
                self.0.put(fd, fi);
            },
        }
    }

    /// Takes waiter `e` from the waiters on `fd`.
    pub fn EventUnregister(&mut self, fd: i32, e: &WaitEntry)
        ensures
            final(self)@ == if old(self)@.contains_key(fd) {
                old(self)@.insert(fd, FdInfoView { queue: Without(old(self)@[fd].queue, e.id), ..old(self)@[fd] })
            } else {
                old(self)@
            },
    {
        match self.0.take(fd) {
            None => {
                assert(self@ =~= old(self)@);
            },
            Some(mut fi) => {
                fi.queue.EventUnregister(e);
                self.0.put(fd, fi);
            },
        }
    }
}

/// Puts `fd` under the watch of `notifier`, with the waiters `queue` of
/// `iops`.
pub fn AddFD(notifier: &mut Notifier, ring: &IoUring, fd: i32, iops: &HostInodeOp, queue: Queue)
    requires
        !old(notifier)@.contains_key(fd),
        Consistent(old(notifier)@, ring@),
    ensures
        final(notifier)@ == Added(old(notifier)@, fd, *iops, queue@),
        Consistent(final(notifier)@, ring@),
{
    notifier.AddFD(ring, fd, iops, queue);
}

/// Takes `fd` from under the watch of `notifier`.
pub fn RemoveFD(notifier: &mut Notifier, ring: &mut IoUring, fd: i32)
    requires
        old(notifier)@.contains_key(fd),
        Consistent(old(notifier)@, old(ring)@),
    ensures
        final(notifier)@ == old(notifier)@.remove(fd),
        final(ring)@ == Cancelled(old(ring)@, old(notifier)@[fd].userdata),
        Consistent(final(notifier)@, final(ring)@),
{
    notifier.RemoveFD(ring, fd);
}

/// Brings the poll of `fd` in line with what its waiters ask for.
pub fn UpdateFD(notifier: &mut Notifier, ring: &mut IoUring, fd: i32) -> (r: Result<(), Error>)
    requires
        Consistent(old(notifier)@, old(ring)@),
        old(ring)@.next < usize::MAX,
    ensures
        r == Ok::<(), Error>(()),
        old(notifier)@.contains_key(fd) ==> {
            &&& final(notifier)@ == WaitfdMap(old(notifier)@, old(ring)@, fd, EventsOf(old(notifier)@[fd].queue))
            &&& final(ring)@ == WaitfdRing(old(notifier)@, old(ring)@, fd, EventsOf(old(notifier)@[fd].queue))
        },
        !old(notifier)@.contains_key(fd) ==> final(notifier)@ == old(notifier)@ && final(ring)@ == old(ring)@,
        Consistent(final(notifier)@, final(ring)@),
{
    notifier.UpdateFD(ring, fd)
}

/// Tells the waiters on `fd` of the host's poll bits `mask`.
pub fn Notify(notifier: &mut Notifier, fd: i32, mask: EventMask)
    ensures
        final(notifier)@ == if old(notifier)@.contains_key(fd) {
            old(notifier)@.insert(
                fd,
                FdInfoView {
                    queue: NotifyAll(old(notifier)@[fd].queue, FromLinux((mask & 0xffff_ffff) as u32)),
                    ..old(notifier)@[fd]
                },
            )
        } else {
            old(notifier)@
        },
{
    notifier.Notify(fd, mask);
}

} // verus!
