use quark_core::threadmgr::task_interrupt::GroupStop;
use quark_core::kernel::waiter::WaitEntry;
use quark_core::qlib::common::Error;
use quark_core::qlib::common::SysErr;
use quark_core::qlib::linux_def::SigAct;
use quark_core::qlib::linux_def::SigFlag;
use quark_core::qlib::linux_def::Signal;
use quark_core::qlib::linux_def::SignalInfo;
use quark_core::qlib::linux_def::SignalSet;
use quark_core::qlib::linux_def::UNMASKABLE_MASK;
use quark_core::threadmgr::task_exit::TaskExitState;
use quark_core::threadmgr::thread::Thread;
use quark_core::threadmgr::thread::ThreadInternal;
use quark_core::threadmgr::thread_group::TaskSet;
use quark_core::threadmgr::thread_group::ThreadGroup;
use quark_core::threadmgr::thread_group::ThreadGroupInternal;
use quark_core::SignalDef::IntervalTimer;
use quark_core::SignalDef::PendingSignals;

fn info(signo: i32) -> SignalInfo {
    SignalInfo { Signo: signo, Errno: 0, Code: 0, pid: 0, uid: 0, status: 0, addr: 0 }
}

fn bit(signo: i32) -> u64 {
    1u64 << (signo - 1)
}

fn one_group(threads: usize) -> TaskSet {
    let mut g = ThreadGroupInternal::New();
    for i in 0..threads {
        g.AddThread(ThreadInternal::New(100 + i as i32, 1000, None));
    }
    TaskSet { groups: vec![g] }
}

fn handler(addr: u64) -> SigAct {
    SigAct { handler: addr, flags: SigFlag(0), restorer: 0, mask: 0 }
}

const T0: Thread = Thread { tg: 0, idx: 0 };
const T1: Thread = Thread { tg: 0, idx: 1 };

#[test]
fn signal_set_of_one_signal() {
    assert_eq!(SignalSet::New(Signal(1)).0, 1);
    assert_eq!(SignalSet::New(Signal(Signal::SIGKILL)).0, 0x100);
    assert_eq!(SignalSet::New(Signal(64)).0, 1u64 << 63);
    assert_eq!(UNMASKABLE_MASK, bit(Signal::SIGKILL) | bit(Signal::SIGSTOP));
}

#[test]
fn make_signal_set_unites_its_signals() {
    let s = SignalSet::MakeSignalSet(&[Signal(10), Signal(12), Signal(10)]);
    assert_eq!(s.0, bit(10) | bit(12));
    assert_eq!(SignalSet::MakeSignalSet(&[]).0, 0);
}

#[test]
fn validity_of_signal_numbers() {
    assert!(!Signal(0).IsValid());
    assert!(Signal(1).IsValid());
    assert!(Signal(64).IsValid());
    assert!(!Signal(65).IsValid());
    assert!(!Signal(-1).IsValid());
    assert!(!Signal(31).IsRealtime());
    assert!(Signal(32).IsRealtime());
    assert!(!Signal(Signal::SIGKILL).Maskable());
    assert!(!Signal(Signal::SIGSTOP).Maskable());
    assert!(Signal(Signal::SIGTERM).Maskable());
}

#[test]
fn queue_takes_one_instance_of_a_standard_signal() {
    let mut q = PendingSignals::New();
    assert_eq!(q.Enque(info(10), None), Ok(true));
    assert_eq!(q.Enque(info(10), None), Ok(false));
    assert_eq!(q.pendingSet.0, bit(10));
    assert_eq!(q.Deque(SignalSet(0)), Some(info(10)));
    assert_eq!(q.pendingSet.0, 0);
    assert_eq!(q.Deque(SignalSet(0)), None);
}

#[test]
fn queue_takes_thirty_two_instances_of_a_real_time_signal() {
    let mut q = PendingSignals::New();
    for i in 0..32 {
        let mut si = info(40);
        si.status = i;
        assert_eq!(q.Enque(si, None), Ok(true));
    }
    assert_eq!(q.Enque(info(40), None), Ok(false));
    for i in 0..32 {
        let got = q.Deque(SignalSet(0)).unwrap();
        assert_eq!(got.status, i);
    }
    assert_eq!(q.pendingSet.0, 0);
}

#[test]
fn queue_refuses_numbers_that_are_no_signal() {
    let mut q = PendingSignals::New();
    assert_eq!(q.Enque(info(0), None), Err(Error::SysError(SysErr::EINVAL)));
    assert_eq!(q.Enque(info(65), None), Err(Error::SysError(SysErr::EINVAL)));
    assert_eq!(q.Enque(info(-3), None), Err(Error::SysError(SysErr::EINVAL)));
    assert_eq!(q.pendingSet.0, 0);
}

#[test]
fn deque_hands_out_the_lowest_signal_not_blocked() {
    let mut q = PendingSignals::New();
    q.Enque(info(15), None).unwrap();
    q.Enque(info(10), None).unwrap();
    q.Enque(info(12), None).unwrap();
    assert_eq!(q.Deque(SignalSet(bit(10))), Some(info(12)));
    assert_eq!(q.Deque(SignalSet(bit(10) | bit(15))), None);
    assert_eq!(q.Deque(SignalSet(0)), Some(info(10)));
    assert_eq!(q.Deque(SignalSet(0)), Some(info(15)));
}

#[test]
fn discard_drops_every_instance() {
    let mut q = PendingSignals::New();
    q.Enque(info(40), None).unwrap();
    q.Enque(info(40), None).unwrap();
    q.Enque(info(10), None).unwrap();
    q.Discard(Signal(40));
    assert_eq!(q.pendingSet.0, bit(10));
    assert_eq!(q.Deque(SignalSet(0)), Some(info(10)));
    assert_eq!(q.Deque(SignalSet(0)), None);
}

#[test]
fn thread_dequeues_its_own_signals_before_the_groups() {
    let mut t = ThreadInternal::New(1, 0, None);
    let mut group = PendingSignals::New();
    group.Enque(info(10), None).unwrap();
    t.pendingSignals.Enque(info(12), None).unwrap();
    assert_eq!(t.dequeueSignalLocked(&mut group, SignalSet(0)), Some(info(12)));
    assert_eq!(group.pendingSet.0, bit(10));
    assert_eq!(t.dequeueSignalLocked(&mut group, SignalSet(0)), Some(info(10)));
    assert_eq!(t.dequeueSignalLocked(&mut group, SignalSet(0)), None);
}

#[test]
fn send_to_a_dead_thread_is_esrch() {
    let mut ts = one_group(1);
    ts.groups[0].tasks[0].exitState = TaskExitState::TaskExitDead;
    assert_eq!(T0.SendSignal(&mut ts, &info(10)), Err(Error::SysError(SysErr::ESRCH)));
    assert_eq!(T0.PendingSignals(&ts).0, 0);
}

#[test]
fn send_of_signal_zero_changes_nothing() {
    let mut ts = one_group(1);
    assert_eq!(T0.SendSignal(&mut ts, &info(0)), Ok(()));
    assert_eq!(T0.PendingSignals(&ts).0, 0);
    assert!(!ts.groups[0].tasks[0].interruptPending);
}

#[test]
fn send_of_an_invalid_number_is_einval() {
    let mut ts = one_group(1);
    assert_eq!(T0.SendSignal(&mut ts, &info(65)), Err(Error::SysError(SysErr::EINVAL)));
    assert_eq!(T0.SendSignal(&mut ts, &info(-1)), Err(Error::SysError(SysErr::EINVAL)));
}

#[test]
fn ignored_unblocked_signal_is_discarded() {
    let mut ts = one_group(1);
    let old = ThreadGroup(0).SetSignalAct(&mut ts, Signal(Signal::SIGUSR1), &Some(handler(SigAct::SIGNAL_ACT_IGNORE)));
    assert_eq!(old, Ok(handler(0)));
    assert_eq!(T0.SendSignal(&mut ts, &info(Signal::SIGUSR1)), Ok(()));
    assert_eq!(T0.PendingSignals(&ts).0 & bit(Signal::SIGUSR1), 0);
    assert_eq!(T0.PendingSignals(&ts).0, 0);
    assert!(!ts.groups[0].tasks[0].interruptPending);
}

#[test]
fn ignored_but_blocked_signal_is_queued() {
    let mut ts = one_group(1);
    ThreadGroup(0).SetSignalAct(&mut ts, Signal(Signal::SIGUSR1), &Some(handler(1))).unwrap();
    T0.SetSignalMask(&mut ts, SignalSet(bit(Signal::SIGUSR1)));
    assert_eq!(T0.SendSignal(&mut ts, &info(Signal::SIGUSR1)), Ok(()));
    assert_eq!(T0.PendingSignals(&ts).0, bit(Signal::SIGUSR1));
    assert!(!ts.groups[0].tasks[0].interruptPending);
}

#[test]
fn discarded_signal_rejects_its_timer() {
    let mut ts = one_group(1);
    // SIGCHLD is ignored by default.
    let r = T0.sendSignalTimerLocked(&mut ts.groups[0], &info(Signal::SIGCHLD), false, Some(IntervalTimer(7)));
    assert_eq!(r, Ok(()));
    assert_eq!(ts.groups[0].timerRejections, vec![IntervalTimer(7)]);
    assert_eq!(T0.PendingSignals(&ts).0, 0);
}

#[test]
fn second_standard_signal_succeeds_and_rejects_its_timer() {
    let mut ts = one_group(1);
    assert_eq!(T0.SendSignal(&mut ts, &info(Signal::SIGUSR1)), Ok(()));
    let r = T0.sendSignalTimerLocked(&mut ts.groups[0], &info(Signal::SIGUSR1), false, Some(IntervalTimer(3)));
    assert_eq!(r, Ok(()));
    assert_eq!(ts.groups[0].timerRejections, vec![IntervalTimer(3)]);
}

#[test]
fn full_real_time_queue_is_eagain() {
    let mut ts = one_group(1);
    ThreadGroup(0).SetSignalAct(&mut ts, Signal(40), &Some(handler(0x1000))).unwrap();
    for _ in 0..32 {
        assert_eq!(T0.SendSignal(&mut ts, &info(40)), Ok(()));
    }
    let r = T0.sendSignalTimerLocked(&mut ts.groups[0], &info(40), false, Some(IntervalTimer(9)));
    assert_eq!(r, Err(Error::SysError(SysErr::EAGAIN)));
    assert!(ts.groups[0].timerRejections.is_empty());
}

#[test]
fn queued_signal_interrupts_the_target() {
    let mut ts = one_group(2);
    assert_eq!(T1.SendSignal(&mut ts, &info(Signal::SIGTERM)), Ok(()));
    assert!(ts.groups[0].tasks[1].interruptPending);
    assert!(!ts.groups[0].tasks[0].interruptPending);
    assert_eq!(ts.groups[0].tasks[1].pendingSignals.pendingSet.0, bit(Signal::SIGTERM));
    assert_eq!(ts.groups[0].pendingSignals.pendingSet.0, 0);
}

#[test]
fn group_signal_goes_to_the_first_thread_that_can_take_it() {
    let mut ts = one_group(3);
    T0.SetSignalMask(&mut ts, SignalSet(bit(Signal::SIGTERM)));
    ts.groups[0].tasks[1].interruptPending = true;
    assert_eq!(T0.SendGroupSignal(&mut ts, &info(Signal::SIGTERM)), Ok(()));
    assert_eq!(ts.groups[0].pendingSignals.pendingSet.0, bit(Signal::SIGTERM));
    assert!(!ts.groups[0].tasks[0].interruptPending);
    assert!(ts.groups[0].tasks[2].interruptPending);
}

#[test]
fn signal_queue_waiters_hear_of_a_signal() {
    let mut ts = one_group(1);
    let e = WaitEntry::New(5);
    T0.SignalRegister(&mut ts, &e, bit(Signal::SIGTERM));
    T0.SendSignal(&mut ts, &info(Signal::SIGTERM)).unwrap();
    assert_eq!(ts.groups[0].tasks[0].SignalQueue.entries[0].triggered, bit(Signal::SIGTERM));
    T0.SignalUnregister(&mut ts, &e);
    assert!(ts.groups[0].tasks[0].SignalQueue.entries.is_empty());
}

#[test]
fn sigkill_kills_every_thread_of_the_group() {
    let mut ts = one_group(2);
    assert_eq!(T0.SendSignal(&mut ts, &info(Signal::SIGKILL)), Ok(()));
    assert!(ts.groups[0].exiting);
    assert_eq!(ts.groups[0].exitStatus.Signo, Signal::SIGKILL);
    assert!(ts.groups[0].tasks[0].killedLocked());
    assert!(ts.groups[0].tasks[1].killedLocked());
    assert!(ts.groups[0].tasks[1].interruptPending);
}

#[test]
fn stop_signal_discards_pending_sigcont() {
    let mut ts = one_group(1);
    ThreadGroup(0).SetSignalAct(&mut ts, Signal(Signal::SIGCONT), &Some(handler(0x1000))).unwrap();
    T0.SetSignalMask(&mut ts, SignalSet(bit(Signal::SIGCONT) | bit(Signal::SIGTSTP)));
    T0.SendSignal(&mut ts, &info(Signal::SIGCONT)).unwrap();
    assert_eq!(T0.PendingSignals(&ts).0, bit(Signal::SIGCONT));
    T0.SendSignal(&mut ts, &info(Signal::SIGTSTP)).unwrap();
    assert_eq!(T0.PendingSignals(&ts).0, bit(Signal::SIGTSTP));
}

#[test]
fn masks_never_hold_kill_or_stop() {
    let mut ts = one_group(1);
    T0.SetSignalMask(&mut ts, SignalSet(u64::MAX));
    assert_eq!(T0.SignalMask(&ts).0, u64::MAX & !UNMASKABLE_MASK);
    assert_eq!(T0.SignalMask(&ts).0 & bit(Signal::SIGKILL), 0);
    assert_eq!(T0.SignalMask(&ts).0 & bit(Signal::SIGSTOP), 0);
    T0.SetSignalMask(&mut ts, SignalSet(bit(Signal::SIGKILL)));
    assert_eq!(T0.SignalMask(&ts).0, 0);
}

#[test]
fn unblocking_a_pending_signal_interrupts_the_thread() {
    let mut ts = one_group(1);
    T0.SetSignalMask(&mut ts, SignalSet(bit(Signal::SIGTERM)));
    T0.SendSignal(&mut ts, &info(Signal::SIGTERM)).unwrap();
    assert!(!ts.groups[0].tasks[0].interruptPending);
    T0.SetSignalMask(&mut ts, SignalSet(0));
    assert!(ts.groups[0].tasks[0].interruptPending);
}

#[test]
fn blocking_a_group_signal_passes_it_on() {
    let mut ts = one_group(2);
    T0.SendGroupSignal(&mut ts, &info(Signal::SIGTERM)).unwrap();
    assert!(ts.groups[0].tasks[0].interruptPending);
    assert!(!ts.groups[0].tasks[1].interruptPending);
    T0.SetSignalMask(&mut ts, SignalSet(bit(Signal::SIGTERM)));
    // The second thread is woken in place of the first, whose own
    // interrupt is raised again.
    assert!(ts.groups[0].tasks[1].interruptPending);
    assert!(ts.groups[0].tasks[0].interruptPending);
}

#[test]
fn saved_mask_is_recorded() {
    let mut ts = one_group(1);
    T0.SetSavedSignalMask(&mut ts, SignalSet(0x30));
    assert!(ts.groups[0].tasks[0].haveSavedSignalMask);
    assert_eq!(ts.groups[0].tasks[0].savedSignalMask.0, 0x30);
}

#[test]
fn set_signal_act_refuses_kill_stop_and_bad_numbers() {
    let mut ts = one_group(1);
    let some = Some(handler(0x1000));
    assert_eq!(ThreadGroup(0).SetSignalAct(&mut ts, Signal(0), &some), Err(Error::SysError(SysErr::EINVAL)));
    assert_eq!(ThreadGroup(0).SetSignalAct(&mut ts, Signal(65), &None), Err(Error::SysError(SysErr::EINVAL)));
    assert_eq!(
        ThreadGroup(0).SetSignalAct(&mut ts, Signal(Signal::SIGKILL), &some),
        Err(Error::SysError(SysErr::EINVAL))
    );
    assert_eq!(
        ThreadGroup(0).SetSignalAct(&mut ts, Signal(Signal::SIGSTOP), &some),
        Err(Error::SysError(SysErr::EINVAL))
    );
    assert_eq!(ThreadGroup(0).SetSignalAct(&mut ts, Signal(Signal::SIGKILL), &None), Ok(handler(0)));
}

#[test]
fn set_signal_act_returns_the_old_action_and_strips_the_mask() {
    let mut ts = one_group(1);
    let mut a = handler(0x1000);
    a.mask = u64::MAX;
    assert_eq!(ThreadGroup(0).SetSignalAct(&mut ts, Signal(10), &Some(a)), Ok(handler(0)));
    let stored = ThreadGroup(0).SetSignalAct(&mut ts, Signal(10), &None).unwrap();
    assert_eq!(stored.handler, 0x1000);
    assert_eq!(stored.mask, u64::MAX & !UNMASKABLE_MASK);
}

#[test]
fn force_signal_resets_an_ignored_action_and_unblocks() {
    let mut ts = one_group(1);
    ThreadGroup(0).SetSignalAct(&mut ts, Signal(Signal::SIGSEGV), &Some(handler(1))).unwrap();
    T0.SetSignalMask(&mut ts, SignalSet(bit(Signal::SIGSEGV) | bit(Signal::SIGTERM)));
    T0.forceSignal(&mut ts, Signal(Signal::SIGSEGV), false);
    assert_eq!(ts.groups[0].signalHandlers.GetAct(Signal(Signal::SIGSEGV)).handler, 0);
    assert_eq!(T0.SignalMask(&ts).0, bit(Signal::SIGTERM));
}

#[test]
fn force_signal_leaves_a_handled_unblocked_signal_alone() {
    let mut ts = one_group(1);
    ThreadGroup(0).SetSignalAct(&mut ts, Signal(Signal::SIGSEGV), &Some(handler(0x2000))).unwrap();
    T0.forceSignal(&mut ts, Signal(Signal::SIGSEGV), false);
    assert_eq!(ts.groups[0].signalHandlers.GetAct(Signal(Signal::SIGSEGV)).handler, 0x2000);
    T0.forceSignal(&mut ts, Signal(Signal::SIGSEGV), true);
    assert_eq!(ts.groups[0].signalHandlers.GetAct(Signal(Signal::SIGSEGV)).handler, 0);
}

#[test]
fn sigtimedwait_takes_a_waiting_signal_at_once() {
    let mut ts = one_group(1);
    T0.SetSignalMask(&mut ts, SignalSet(u64::MAX));
    T0.SendSignal(&mut ts, &info(Signal::SIGUSR2)).unwrap();
    let r = T0.Sigtimedwait(&mut ts, SignalSet(bit(Signal::SIGUSR2)), 10_000_000, Error::SysError(SysErr::ETIMEDOUT));
    assert_eq!(r, Ok(info(Signal::SIGUSR2)));
    assert_eq!(T0.PendingSignals(&ts).0, 0);
    assert_eq!(ts.groups[0].tasks[0].realSignalMask.0, 0);
}

#[test]
fn sigtimedwait_with_zero_timeout_is_eagain() {
    let mut ts = one_group(1);
    let r = T0.Sigtimedwait(&mut ts, SignalSet(bit(Signal::SIGUSR2)), 0, Error::SysError(SysErr::ETIMEDOUT));
    assert_eq!(r, Err(Error::SysError(SysErr::EAGAIN)));
}

#[test]
fn sigtimedwait_times_out_with_eagain_and_restores_the_mask() {
    let mut ts = one_group(1);
    T0.SetSignalMask(&mut ts, SignalSet(u64::MAX));
    let before = T0.SignalMask(&ts);
    let r = T0.Sigtimedwait(&mut ts, SignalSet(bit(Signal::SIGUSR2)), 10_000_000, Error::SysError(SysErr::ETIMEDOUT));
    assert_eq!(r, Err(Error::SysError(SysErr::EAGAIN)));
    assert_eq!(ts.groups[0].tasks[0].realSignalMask.0, 0);
    assert_eq!(T0.SignalMask(&ts), before);
}

#[test]
fn sigtimedwait_hands_on_other_wake_errors() {
    let mut ts = one_group(1);
    let r = T0.Sigtimedwait(&mut ts, SignalSet(bit(Signal::SIGUSR2)), 5, Error::SysError(SysErr::EINTR));
    assert_eq!(r, Err(Error::SysError(SysErr::EINTR)));
}

#[test]
fn sigtimedwait_in_two_halves_sees_a_signal_sent_meanwhile() {
    let mut ts = one_group(1);
    ThreadGroup(0).SetSignalAct(&mut ts, Signal(Signal::SIGUSR2), &Some(handler(1))).unwrap();
    T0.SetSignalMask(&mut ts, SignalSet(u64::MAX));
    let set = SignalSet(bit(Signal::SIGUSR2));
    assert_eq!(ts.groups[0].beginSigwaitLocked(0, set, 1000), None);
    // While the thread waits, its mask lets the signal through, and the
    // mask set aside keeps the ignored signal from being dropped.
    assert_eq!(T0.SignalMask(&ts).0 & bit(Signal::SIGUSR2), 0);
    assert_eq!(ts.groups[0].tasks[0].realSignalMask.0, u64::MAX & !UNMASKABLE_MASK);
    T0.SendSignal(&mut ts, &info(Signal::SIGUSR2)).unwrap();
    assert!(ts.groups[0].tasks[0].interruptPending);
    let r = ts.groups[0].endSigwaitLocked(0, set, Error::SysError(SysErr::EINTR));
    assert_eq!(r, Ok(info(Signal::SIGUSR2)));
    assert_eq!(ts.groups[0].tasks[0].realSignalMask.0, 0);
    assert_eq!(T0.SignalMask(&ts).0, u64::MAX & !UNMASKABLE_MASK);
}

#[test]
fn group_stop_counts_the_live_threads() {
    let mut ts = one_group(3);
    ts.groups[0].tasks[2].exitState = TaskExitState::TaskExitInitiated;
    ts.groups[0].groupStop.groupStopDequeued = true;
    T0.initiateGroupStop(&mut ts, &info(Signal::SIGTSTP));
    let g = &ts.groups[0];
    assert_eq!(g.groupStop.groupStopPendingCount, 2);
    assert_eq!(g.groupStop.groupStopSignal, Signal(Signal::SIGTSTP));
    assert!(g.tasks[0].groupStopPending && g.tasks[1].groupStopPending);
    assert!(!g.tasks[2].groupStopPending);
    assert!(g.tasks[0].interruptPending && g.tasks[1].interruptPending);
    let pending = g.tasks.iter().filter(|t| t.groupStopPending).count();
    assert_eq!(pending as i32, g.groupStop.groupStopPendingCount);
}

#[test]
fn group_stop_is_given_up_after_a_sigcont() {
    let mut ts = one_group(2);
    // No stop signal was dequeued, as after a SIGCONT.
    T0.initiateGroupStop(&mut ts, &info(Signal::SIGTSTP));
    assert_eq!(ts.groups[0].groupStop.groupStopPendingCount, 0);
    assert!(!ts.groups[0].tasks[0].groupStopPending);
    ts.groups[0].groupStop.groupStopDequeued = true;
    ts.groups[0].exiting = true;
    T0.initiateGroupStop(&mut ts, &info(Signal::SIGTSTP));
    assert!(!ts.groups[0].tasks[0].groupStopPending);
    ts.groups[0].exiting = false;
    ts.groups[0].execing = true;
    T0.initiateGroupStop(&mut ts, &info(Signal::SIGTSTP));
    assert!(!ts.groups[0].tasks[0].groupStopPending);
}

#[test]
fn last_thread_to_join_completes_the_stop() {
    let mut ts = one_group(2);
    ts.groups[0].groupStop.groupStopDequeued = true;
    T0.initiateGroupStop(&mut ts, &info(Signal::SIGSTOP));
    let g = &mut ts.groups[0];
    g.tasks[0].groupStopPending = false;
    assert!(!g.tasks[0].participateGroupStopLocked(&mut g.groupStop));
    assert_eq!(g.groupStop.groupStopPendingCount, 1);
    assert!(!g.groupStop.groupStopComplete);
    // Joining twice does not count twice.
    assert!(!g.tasks[0].participateGroupStopLocked(&mut g.groupStop));
    assert_eq!(g.groupStop.groupStopPendingCount, 1);
    g.tasks[1].groupStopPending = false;
    assert!(g.tasks[1].participateGroupStopLocked(&mut g.groupStop));
    assert_eq!(g.groupStop.groupStopPendingCount, 0);
    assert!(g.groupStop.groupStopComplete);
    assert!(g.groupStop.groupStopWaitable);
}

#[test]
fn end_group_stop_without_a_stop_calls_off_a_dequeued_stop() {
    let mut ts = one_group(1);
    T0.SetSignalMask(&mut ts, SignalSet(bit(Signal::SIGTSTP)));
    T0.SendSignal(&mut ts, &info(Signal::SIGTSTP)).unwrap();
    ts.groups[0].groupStop.groupStopDequeued = true;
    ts.groups[0].endGroupStopLocked(true);
    assert_eq!(T0.PendingSignals(&ts).0, 0);
    assert!(!ts.groups[0].groupStop.groupStopDequeued);
    assert!(!ts.groups[0].groupStop.groupContNotify);
    assert!(!ts.groups[0].groupStop.groupContWaitable);
    assert!(!ts.groups[0].tasks[0].groupStopPending);

    // The stop that the dequeued signal would have begun is given up.
    T0.initiateGroupStop(&mut ts, &info(Signal::SIGTSTP));
    let g = &ts.groups[0];
    assert_eq!(g.groupStop.groupStopPendingCount, 0);
    assert_eq!(g.groupStop.groupStopSignal, Signal(0));
    assert!(!g.tasks[0].groupStopPending);
}

#[test]
fn sigcont_between_dequeue_and_stop_gives_the_stop_up() {
    let mut ts = one_group(2);
    // A stop signal has left its queue, the stop has not begun.
    ts.groups[0].groupStop.groupStopDequeued = true;
    assert_eq!(T1.SendSignal(&mut ts, &info(Signal::SIGCONT)), Ok(()));
    assert!(!ts.groups[0].groupStop.groupStopDequeued);
    assert!(!ts.groups[0].groupStop.groupContNotify);

    T0.initiateGroupStop(&mut ts, &info(Signal::SIGSTOP));
    let g = &ts.groups[0];
    assert_eq!(g.groupStop.groupStopPendingCount, 0);
    assert_eq!(g.groupStop.groupStopSignal, Signal(0));
    assert!(!g.tasks[0].groupStopPending && !g.tasks[1].groupStopPending);
    assert!(!g.groupStop.groupStopComplete);
}

#[test]
fn setting_an_ignoring_action_drops_the_pending_signal() {
    let mut ts = one_group(2);
    T0.SetSignalMask(&mut ts, SignalSet(bit(Signal::SIGUSR1) | bit(Signal::SIGUSR2)));
    T1.SetSignalMask(&mut ts, SignalSet(bit(Signal::SIGUSR1) | bit(Signal::SIGUSR2)));
    T0.SendSignal(&mut ts, &info(Signal::SIGUSR1)).unwrap();
    T0.SendSignal(&mut ts, &info(Signal::SIGUSR2)).unwrap();
    T1.SendSignal(&mut ts, &info(Signal::SIGUSR1)).unwrap();
    ThreadGroup(0).SendSignal(&mut ts, &info(Signal::SIGUSR1)).unwrap();
    ThreadGroup(0).SendSignal(&mut ts, &info(Signal::SIGUSR2)).unwrap();
    assert_eq!(ts.groups[0].tasks[0].pendingSignals.pendingSet.0, bit(Signal::SIGUSR1) | bit(Signal::SIGUSR2));
    assert_eq!(ts.groups[0].tasks[1].pendingSignals.pendingSet.0, bit(Signal::SIGUSR1));
    assert_eq!(ts.groups[0].pendingSignals.pendingSet.0, bit(Signal::SIGUSR1) | bit(Signal::SIGUSR2));

    let old = ThreadGroup(0).SetSignalAct(&mut ts, Signal(Signal::SIGUSR1), &Some(handler(SigAct::SIGNAL_ACT_IGNORE)));
    assert_eq!(old, Ok(handler(0)));
    // Blocked or not, the ignored signal waits nowhere; the other stays.
    assert_eq!(ts.groups[0].tasks[0].pendingSignals.pendingSet.0, bit(Signal::SIGUSR2));
    assert_eq!(ts.groups[0].tasks[1].pendingSignals.pendingSet.0, 0);
    assert_eq!(ts.groups[0].pendingSignals.pendingSet.0, bit(Signal::SIGUSR2));
    assert_eq!(T0.PendingSignals(&ts).0, bit(Signal::SIGUSR2));
    assert_eq!(T1.PendingSignals(&ts).0, bit(Signal::SIGUSR2));
}

#[test]
fn setting_the_default_action_drops_a_signal_that_it_ignores() {
    let mut ts = one_group(1);
    ThreadGroup(0).SetSignalAct(&mut ts, Signal(Signal::SIGCHLD), &Some(handler(0x1000))).unwrap();
    T0.SetSignalMask(&mut ts, SignalSet(bit(Signal::SIGCHLD) | bit(Signal::SIGTERM)));
    T0.SendSignal(&mut ts, &info(Signal::SIGCHLD)).unwrap();
    T0.SendSignal(&mut ts, &info(Signal::SIGTERM)).unwrap();
    ThreadGroup(0).SendSignal(&mut ts, &info(Signal::SIGCHLD)).unwrap();
    assert_eq!(T0.PendingSignals(&ts).0, bit(Signal::SIGCHLD) | bit(Signal::SIGTERM));

    // The default for SIGCHLD is to ignore it.
    let old = ThreadGroup(0).SetSignalAct(&mut ts, Signal(Signal::SIGCHLD), &Some(handler(SigAct::SIGNAL_ACT_DEFAULT)));
    assert_eq!(old, Ok(handler(0x1000)));
    assert_eq!(ts.groups[0].tasks[0].pendingSignals.pendingSet.0, bit(Signal::SIGTERM));
    assert_eq!(ts.groups[0].pendingSignals.pendingSet.0, 0);
}

#[test]
fn setting_an_action_that_does_not_ignore_keeps_the_pending_signal() {
    let mut ts = one_group(1);
    T0.SetSignalMask(&mut ts, SignalSet(bit(Signal::SIGUSR1) | bit(Signal::SIGSEGV)));
    T0.SendSignal(&mut ts, &info(Signal::SIGUSR1)).unwrap();
    T0.SendSignal(&mut ts, &info(Signal::SIGSEGV)).unwrap();
    ThreadGroup(0).SendSignal(&mut ts, &info(Signal::SIGUSR1)).unwrap();

    // A handler, then the default again: terminate for one, core for the other.
    ThreadGroup(0).SetSignalAct(&mut ts, Signal(Signal::SIGUSR1), &Some(handler(0x1000))).unwrap();
    ThreadGroup(0).SetSignalAct(&mut ts, Signal(Signal::SIGUSR1), &Some(handler(SigAct::SIGNAL_ACT_DEFAULT))).unwrap();
    ThreadGroup(0).SetSignalAct(&mut ts, Signal(Signal::SIGSEGV), &Some(handler(SigAct::SIGNAL_ACT_DEFAULT))).unwrap();
    // Asking for the action changes nothing.
    ThreadGroup(0).SetSignalAct(&mut ts, Signal(Signal::SIGUSR1), &None).unwrap();
    assert_eq!(ts.groups[0].tasks[0].pendingSignals.pendingSet.0, bit(Signal::SIGUSR1) | bit(Signal::SIGSEGV));
    assert_eq!(ts.groups[0].pendingSignals.pendingSet.0, bit(Signal::SIGUSR1));
}

#[test]
fn end_group_stop_cancels_a_stop_in_progress() {
    let mut ts = one_group(2);
    ts.groups[0].groupStop.groupStopDequeued = true;
    T0.initiateGroupStop(&mut ts, &info(Signal::SIGSTOP));
    ts.groups[0].endGroupStopLocked(true);
    let g = &ts.groups[0];
    assert_eq!(g.groupStop.groupStopPendingCount, 0);
    assert!(!g.groupStop.groupStopDequeued);
    assert_eq!(g.groupStop.groupStopSignal, Signal(0));
    assert!(g.groupStop.groupContNotify);
    assert!(g.groupStop.groupContInterrupted);
    assert!(g.groupStop.groupContWaitable);
    assert!(g.tasks[0].groupStopPending && g.tasks[1].groupStopPending);
}

#[test]
fn find_receiver_skips_threads_that_cannot_take_the_signal() {
    let mut ts = one_group(3);
    ts.groups[0].tasks[0].signalMask = SignalSet(bit(Signal::SIGTERM));
    ts.groups[0].tasks[1].interruptPending = true;
    assert_eq!(ts.groups[0].findSignalReceiverLocked(Signal(Signal::SIGTERM)), Some(2));
    ts.groups[0].tasks[2].interruptPending = true;
    assert_eq!(ts.groups[0].findSignalReceiverLocked(Signal(Signal::SIGTERM)), None);
    assert!(ts.groups[0].tasks[0].canReceiveSignalLocked(Signal(Signal::SIGINT)));
}

#[test]
fn discard_specific_reaches_every_queue() {
    let mut ts = one_group(2);
    T0.SetSignalMask(&mut ts, SignalSet(bit(Signal::SIGTERM)));
    T1.SetSignalMask(&mut ts, SignalSet(bit(Signal::SIGTERM)));
    T0.SendSignal(&mut ts, &info(Signal::SIGTERM)).unwrap();
    T1.SendGroupSignal(&mut ts, &info(Signal::SIGTERM)).unwrap();
    assert_eq!(T0.PendingSignals(&ts).0, bit(Signal::SIGTERM));
    ts.groups[0].discardSpecificLocked(Signal(Signal::SIGTERM));
    assert_eq!(T0.PendingSignals(&ts).0, 0);
    assert_eq!(T1.PendingSignals(&ts).0, 0);
}

#[test]
fn group_send_goes_through_the_leader() {
    let mut ts = one_group(2);
    assert_eq!(ThreadGroup(0).SendSignal(&mut ts, &info(Signal::SIGTERM)), Ok(()));
    assert_eq!(ts.groups[0].pendingSignals.pendingSet.0, bit(Signal::SIGTERM));
    assert!(ts.groups[0].tasks[0].interruptPending);
}

#[test]
fn signal_stop_tells_a_parent_that_wants_to_know() {
    let mut parent = ThreadGroupInternal::New();
    parent.AddThread(ThreadInternal::New(1, 0, None));
    let mut child = ThreadGroupInternal::New();
    child.AddThread(ThreadInternal::New(42, 1234, Some(Thread { tg: 0, idx: 0 })));
    let mut ts = TaskSet { groups: vec![parent, child] };
    let p = Thread { tg: 0, idx: 0 };
    let c = Thread { tg: 1, idx: 0 };
    ThreadGroup(0).SetSignalAct(&mut ts, Signal(Signal::SIGCHLD), &Some(handler(0x1000))).unwrap();
    p.signalStop(&mut ts, &c, SignalInfo::CLD_STOPPED, Signal::SIGTSTP);
    let got = ts.groups[0].dequeueLocked(0, SignalSet(0)).unwrap();
    assert_eq!(
        got,
        SignalInfo {
            Signo: Signal::SIGCHLD,
            Errno: 0,
            Code: SignalInfo::CLD_STOPPED,
            pid: 42,
            uid: 1234,
            status: Signal::SIGTSTP,
            addr: 0
        }
    );
    // With SA_NOCLDSTOP nothing is sent.
    let mut quiet = handler(0x1000);
    quiet.flags = SigFlag(SigFlag::SIGNAL_FLAG_NO_CLD_STOP);
    ThreadGroup(0).SetSignalAct(&mut ts, Signal(Signal::SIGCHLD), &Some(quiet)).unwrap();
    p.signalStop(&mut ts, &c, SignalInfo::CLD_STOPPED, Signal::SIGTSTP);
    assert_eq!(p.PendingSignals(&ts).0, 0);
}

#[test]
fn groups_are_named_by_their_position() {
    let mut ts = TaskSet::New();
    let mut parent = ThreadGroupInternal::New();
    assert_eq!(parent.AddThread(ThreadInternal::New(1, 0, None)), 0);
    assert_eq!(parent.AddThread(ThreadInternal::New(2, 0, None)), 1);
    assert_eq!(parent.leader, Some(0));
    assert_eq!(ts.AddGroup(parent), ThreadGroup(0));
    let mut child = ThreadGroupInternal::New();
    child.AddThread(ThreadInternal::New(3, 0, Some(Thread { tg: 0, idx: 1 })));
    assert_eq!(ts.AddGroup(child), ThreadGroup(1));
    assert_eq!(ts.groups.len(), 2);
}

#[test]
fn interrupts_stay_until_they_are_consumed() {
    let mut t = ThreadInternal::New(1, 0, None);
    assert!(!t.Interrupted(true));
    t.interrupt();
    assert!(t.Interrupted(false));
    assert!(t.Interrupted(true));
    assert!(!t.Interrupted(false));
    t.interruptSelf();
    assert!(t.Interrupted(false));
}

#[test]
fn has_signal_looks_at_both_queues_and_the_mask() {
    let mut t = ThreadInternal::New(1, 0, None);
    let mut group = PendingSignals::New();
    assert!(!t.HasSignal(&group));
    group.Enque(info(10), None).unwrap();
    assert!(t.HasSignal(&group));
    t.signalMask = SignalSet(bit(10));
    assert!(!t.HasSignal(&group));
    t.pendingSignals.Enque(info(12), None).unwrap();
    assert!(t.HasSignal(&group));
}

#[test]
fn killing_a_thread_ends_a_killable_stop() {
    let mut t = ThreadInternal::New(1, 0, None);
    t.beginInternalStopLocked(&GroupStop {});
    assert!(t.stop.is_some());
    assert!(!t.canReceiveSignalLocked(Signal(Signal::SIGTERM)));
    t.killLocked();
    assert!(t.stop.is_none());
    assert!(t.killedLocked());
    assert!(t.interruptPending);
    t.signalMask = SignalSet(0);
    let mut group = PendingSignals::New();
    assert_eq!(t.dequeueSignalLocked(&mut group, SignalSet(0)).unwrap().Signo, Signal::SIGKILL);
}
