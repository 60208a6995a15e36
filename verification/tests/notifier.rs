use quark_core::fs::attr::HostInodeOp;
use quark_core::guestfdnotifier::AddFD;
use quark_core::guestfdnotifier::EventMaskFromLinux;
use quark_core::guestfdnotifier::Notifier;
use quark_core::guestfdnotifier::Notify;
use quark_core::guestfdnotifier::RemoveFD;
use quark_core::guestfdnotifier::UpdateFD;
use quark_core::kernel::waiter::Queue;
use quark_core::kernel::waiter::WaitEntry;
use quark_core::qlib::linux_def::EVENT_IN;
use quark_core::qlib::linux_def::EVENT_OUT;
use quark_core::uring_async::IoUring;
use quark_core::uring_async::PollRequest;
use quark_core::uring_async::RingOp;

const FD: i32 = 7;

fn iops(fd: i32) -> HostInodeOp {
    HostInodeOp { HostFd: fd }
}

#[test]
fn waiter_queue_collects_what_is_asked_for() {
    let mut q = Queue::New();
    assert_eq!(q.Events(), 0);
    q.EventRegister(&WaitEntry::New(1), EVENT_IN);
    q.EventRegister(&WaitEntry::New(2), EVENT_OUT);
    q.EventRegister(&WaitEntry::New(1), 0x10);
    assert_eq!(q.Events(), EVENT_IN | EVENT_OUT | 0x10);
    q.Notify(EVENT_IN | 0x10);
    assert_eq!(q.entries[0].triggered, EVENT_IN);
    assert_eq!(q.entries[1].triggered, 0);
    assert_eq!(q.entries[2].triggered, 0x10);
    q.EventUnregister(&WaitEntry::New(1));
    assert_eq!(q.entries.len(), 1);
    assert_eq!(q.entries[0].id, 2);
    assert_eq!(q.Events(), EVENT_OUT);
}

#[test]
fn ring_names_polls_in_order() {
    let mut ring = IoUring::New();
    assert_eq!(ring.AsyncPollAdd(3, EVENT_IN), 0);
    assert_eq!(ring.AsyncPollAdd(4, EVENT_OUT), 1);
    ring.AsyncPollRemove(0);
    assert_eq!(ring.polls, vec![PollRequest { userdata: 1, fd: 4, mask: EVENT_OUT }]);
    assert_eq!(ring.AsyncPollAdd(3, EVENT_OUT), 2);
    assert_eq!(ring.submissions.len(), 4);
    assert_eq!(ring.submissions[2], RingOp::PollRemove(0));
}

#[test]
fn notifier_update_sequence() {
    let mut n = Notifier::New();
    let mut ring = IoUring::New();
    AddFD(&mut n, &ring, FD, &iops(FD), Queue::New());
    assert!(ring.submissions.is_empty());

    n.EventRegister(FD, &WaitEntry::New(1), EVENT_IN);
    assert_eq!(UpdateFD(&mut n, &mut ring, FD), Ok(()));
    let first = PollRequest { userdata: 0, fd: FD, mask: EVENT_IN };
    assert_eq!(ring.submissions, vec![RingOp::PollAdd(first)]);
    assert_eq!(ring.polls, vec![first]);

    n.EventRegister(FD, &WaitEntry::New(2), EVENT_OUT);
    assert_eq!(UpdateFD(&mut n, &mut ring, FD), Ok(()));
    let second = PollRequest { userdata: 1, fd: FD, mask: EVENT_IN | EVENT_OUT };
    assert_eq!(
        ring.submissions,
        vec![RingOp::PollAdd(first), RingOp::PollRemove(0), RingOp::PollAdd(second)]
    );
    assert_eq!(ring.polls, vec![second]);

    n.EventUnregister(FD, &WaitEntry::New(1));
    n.EventUnregister(FD, &WaitEntry::New(2));
    assert_eq!(UpdateFD(&mut n, &mut ring, FD), Ok(()));
    assert_eq!(ring.submissions.len(), 4);
    assert_eq!(ring.submissions[3], RingOp::PollRemove(1));
    assert!(ring.polls.is_empty());

    RemoveFD(&mut n, &mut ring, FD);
    assert_eq!(ring.submissions.len(), 4);
    assert!(ring.polls.is_empty());
    assert!(n.0.fdMap.is_empty());
}

#[test]
fn waiters_registered_before_the_watch_are_seen() {
    let mut n = Notifier::New();
    let mut ring = IoUring::New();
    let mut queue = Queue::New();
    queue.EventRegister(&WaitEntry::New(1), EVENT_IN);
    queue.EventRegister(&WaitEntry::New(2), EVENT_OUT);
    AddFD(&mut n, &ring, FD, &iops(FD), queue);
    assert_eq!(n.0.fdMap[&FD].queue.entries.len(), 2);
    assert_eq!(n.0.fdMap[&FD].mask, 0);
    assert_eq!(n.0.fdMap[&FD].userdata, None);
    assert!(ring.submissions.is_empty());
    assert_eq!(UpdateFD(&mut n, &mut ring, FD), Ok(()));
    assert_eq!(
        ring.submissions,
        vec![RingOp::PollAdd(PollRequest { userdata: 0, fd: FD, mask: EVENT_IN | EVENT_OUT })]
    );
}

#[test]
fn waitfd_twice_submits_once() {
    let mut n = Notifier::New();
    let mut ring = IoUring::New();
    n.AddFD(&ring, FD, &iops(FD), Queue::New());
    assert_eq!(n.Waitfd(&mut ring, FD, EVENT_IN), Ok(()));
    assert_eq!(ring.submissions.len(), 1);
    assert_eq!(n.Waitfd(&mut ring, FD, EVENT_IN), Ok(()));
    assert_eq!(ring.submissions.len(), 1);
    assert_eq!(ring.polls.len(), 1);
    assert_eq!(n.0.fdMap[&FD].mask, EVENT_IN);
    assert_eq!(n.0.fdMap[&FD].userdata, Some(0));
    // A mask of 0 on a descriptor without a poll submits nothing either.
    n.AddFD(&ring, 9, &iops(9), Queue::New());
    assert_eq!(n.Waitfd(&mut ring, 9, 0), Ok(()));
    assert_eq!(ring.submissions.len(), 1);
}

#[test]
fn each_descriptor_has_its_own_poll() {
    let mut n = Notifier::New();
    let mut ring = IoUring::New();
    n.AddFD(&ring, 3, &iops(3), Queue::New());
    n.AddFD(&ring, 4, &iops(4), Queue::New());
    n.Waitfd(&mut ring, 3, EVENT_IN).unwrap();
    n.Waitfd(&mut ring, 4, EVENT_OUT).unwrap();
    n.Waitfd(&mut ring, 3, EVENT_OUT).unwrap();
    assert_eq!(ring.polls.len(), 2);
    for (fd, fi) in n.0.fdMap.iter() {
        let polls: Vec<_> = ring.polls.iter().filter(|p| p.fd == *fd).collect();
        assert_eq!(polls.len(), 1);
        assert_eq!(polls[0].mask, fi.mask);
        assert_eq!(Some(polls[0].userdata), fi.userdata);
    }
}

#[test]
fn removing_a_descriptor_takes_back_its_poll() {
    let mut n = Notifier::New();
    let mut ring = IoUring::New();
    n.AddFD(&ring, FD, &iops(FD), Queue::New());
    n.Waitfd(&mut ring, FD, EVENT_IN).unwrap();
    n.RemoveFD(&mut ring, FD);
    assert_eq!(ring.submissions.last(), Some(&RingOp::PollRemove(0)));
    assert!(ring.polls.is_empty());
}

#[test]
fn update_of_an_unknown_descriptor_is_a_silent_success() {
    let mut n = Notifier::New();
    let mut ring = IoUring::New();
    assert_eq!(UpdateFD(&mut n, &mut ring, 99), Ok(()));
    assert!(ring.submissions.is_empty());
    Notify(&mut n, 99, EVENT_IN);
    assert!(n.0.fdMap.is_empty());
}

#[test]
fn notify_maps_the_hosts_poll_bits() {
    assert_eq!(EventMaskFromLinux(0x5), EVENT_IN | EVENT_OUT);
    assert_eq!(EventMaskFromLinux(0xffe0), 0);
    let mut n = Notifier::New();
    let ring = IoUring::New();
    n.AddFD(&ring, FD, &iops(FD), Queue::New());
    n.EventRegister(FD, &WaitEntry::New(1), EVENT_IN | EVENT_OUT);
    Notify(&mut n, FD, 0x2001);
    assert_eq!(n.0.fdMap[&FD].queue.entries[0].triggered, EVENT_IN);
}
