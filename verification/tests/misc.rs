use quark_core::fs::attr::InodeFileType;
use quark_core::fs::host::util::FileTypeOf;
use quark_core::fs::host::util::Seekable;
use quark_core::fs::host::util::WouldBlock;
use quark_core::qlib::common::Error;
use quark_core::qlib::common::SysErr;
use quark_core::qlib::uring::register::Probe;
use quark_core::qlib::uring::register::ProbeOp;
use quark_core::qlib::uring::register::Restriction;
use quark_core::runtime::signal_handle::HandledSignals;
use quark_core::runtime::signal_handle::SetConole;
use quark_core::runtime::signal_handle::SignalArgs;
use quark_core::runtime::signal_handle::SignalDeliveryMode;
use quark_core::runtime::signal_handle::SignalRelay;
use quark_core::runtime::signal_handle::StartSignalHandle;
use quark_core::runtime::signal_handle::StopSignalHandle;
use quark_core::runtime::vm::BootStrapMem;
use quark_core::runtime::vm::EnableCap;
use quark_core::runtime::vm::GetExitStatus;
use quark_core::runtime::vm::IoAction;
use quark_core::runtime::vm::IoPhase;
use quark_core::runtime::vm::IoThread;
use quark_core::runtime::vm::IsRunning;
use quark_core::runtime::vm::MemRegion;
use quark_core::runtime::vm::SetExitStatus;
use quark_core::runtime::vm::VirtualMachine;
use quark_core::runtime::vm::VmConfig;
use quark_core::runtime::vm::VmExitStatus;
use quark_core::util::cstring::CString;
use quark_core::util::cstring::UserRegion;

#[test]
fn cstring_ends_in_zero() {
    let s = CString::New("abc");
    assert_eq!(s.Len(), 4);
    assert_eq!(s.Slice(), &[0x61, 0x62, 0x63, 0]);
    assert_eq!(CString::New("").Slice(), &[0]);
}

fn region() -> UserRegion {
    UserRegion { base: 0x1000, data: b"hello\0wor\0unterminated".to_vec() }
}

#[test]
fn strings_are_read_up_to_their_end() {
    let m = region();
    assert_eq!(CString::ToString(&m, 0x1000), Ok(b"hello".to_vec()));
    assert_eq!(CString::ToString(&m, 0x1002), Ok(b"llo".to_vec()));
    assert_eq!(CString::ToString(&m, 0x1005), Ok(Vec::new()));
    assert_eq!(CString::ToStringWithLen(&m, 0x1006, 4), Ok(b"wor".to_vec()));
}

#[test]
fn strings_that_cannot_be_read_are_einval() {
    let m = region();
    let einval = Err(Error::SysError(SysErr::EINVAL));
    assert_eq!(CString::ToStringWithLen(&m, 0x1000, 5), einval);
    assert_eq!(CString::ToStringWithLen(&m, 0x1000, 0), einval);
    assert_eq!(CString::ToString(&m, 0xfff), einval);
    assert_eq!(CString::ToString(&m, 0x1000 + 22), einval);
    assert_eq!(CString::ToString(&m, 0x100a), einval);
}

#[test]
fn copy_in_string_says_how_the_copy_ended() {
    let m = region();
    assert_eq!(CString::CopyInString(&m, 0x1000, 10), (b"hello".to_vec(), Ok(())));
    assert_eq!(CString::CopyInString(&m, 0x1000, 5), (b"hello".to_vec(), Err(Error::SysError(36))));
    assert_eq!(CString::CopyInString(&m, 0x1000, 3), (b"hel".to_vec(), Err(Error::SysError(36))));
    assert_eq!(
        CString::CopyInString(&m, 0x100a, 100),
        (b"unterminated".to_vec(), Err(Error::SysError(SysErr::EFAULT)))
    );
    assert_eq!(CString::CopyInString(&m, 0x2000, 100), (Vec::new(), Err(Error::SysError(SysErr::EFAULT))));
}

#[test]
fn probe_knows_what_the_ring_supports() {
    let mut ops = vec![ProbeOp { op: 0, flags: 0 }; 256];
    ops[3].flags = 1;
    ops[4].flags = 2;
    ops[9].flags = 1;
    let p = Probe { last_op: 5, ops };
    assert!(p.is_supported(3));
    assert!(!p.is_supported(4));
    assert!(!p.is_supported(0));
    assert!(!p.is_supported(9));
    assert!(!p.is_supported(255));
}

#[test]
fn restrictions() {
    assert_eq!(Restriction::register_op(7), Restriction { opcode: 0, arg: 7 });
    assert_eq!(Restriction::sqe_op(8), Restriction { opcode: 1, arg: 8 });
    assert_eq!(Restriction::sqe_flags_allowed(0x11), Restriction { opcode: 2, arg: 0x11 });
    assert_eq!(Restriction::sqe_flags_required(0x01), Restriction { opcode: 3, arg: 0x01 });
}

#[test]
fn exit_status() {
    let mut s = VmExitStatus::New();
    assert!(IsRunning(&s));
    assert_eq!(GetExitStatus(&s), -1);
    SetExitStatus(&mut s, 0);
    assert!(!IsRunning(&s));
    assert_eq!(GetExitStatus(&s), 0);
    SetExitStatus(&mut s, 137);
    assert_eq!(GetExitStatus(&s), 137);
}

#[test]
fn bootstrap_memory() {
    let m = BootStrapMem::New(0x40_4000_0000, 4);
    assert_eq!(m.Size(), 4 * 0x8000 + (1 << 26));
    assert_eq!(BootStrapMem::PAGE_POOL_SIZE, 1 << 26);
    assert_eq!(m.VcpuBootstrapMem(0), 0x40_4000_0000);
    assert_eq!(m.VcpuBootstrapMem(3), 0x40_4000_0000 + 3 * 0x8000);
    let a = m.SimplePageAllocator();
    assert_eq!(a.next, 0x40_4000_0000 + 4 * 0x8000);
    assert_eq!(a.end, a.next + (1 << 26));
    assert_eq!(BootStrapMem::New(0, 0).Size(), 1 << 26);
}

#[test]
fn plan_of_the_virtual_machine() {
    let plan = VirtualMachine::Init(&VmConfig { VCPUCount: 6, DedicateUring: 0, KernelMemSize: 16 });
    assert_eq!(plan.cpuCount, 5);
    assert_eq!(
        plan.region,
        MemRegion {
            slot: 1,
            guest_phys_addr: 0x40_0000_0000,
            memory_size: 16 << 30,
            userspace_addr: 0x40_0000_0000,
            flags: 0
        }
    );
    assert_eq!(plan.heapStart, 0x40_4000_0000);
    assert_eq!(plan.heapSize, 15 << 30);
    assert_eq!(plan.cap, EnableCap { cap: 143, arg0: 3 });
    let plan = VirtualMachine::Init(&VmConfig { VCPUCount: 6, DedicateUring: 2, KernelMemSize: 2 });
    assert_eq!(plan.cpuCount, 4);
    assert_eq!(plan.heapSize, 1 << 30);
    assert_eq!(VirtualMachine::DisableExits(), EnableCap { cap: 143, arg0: 3 });
    assert_eq!(
        VirtualMachine::SetMemRegion(2, 0x1000, 0x2000, 0x3000),
        MemRegion { slot: 2, guest_phys_addr: 0x1000, memory_size: 0x3000, userspace_addr: 0x2000, flags: 0 }
    );
}

#[test]
fn signal_relay() {
    let mut r = SignalRelay::New();
    assert_eq!(r.Relay(2), None);
    StartSignalHandle(&mut r);
    assert_eq!(r.Relay(2), Some(SignalArgs { Signo: 2, PID: 0, Mode: SignalDeliveryMode::DeliverToProcess }));
    SetConole(&mut r, true);
    assert_eq!(
        r.Relay(15),
        Some(SignalArgs { Signo: 15, PID: 0, Mode: SignalDeliveryMode::DeliverToForegroundProcessGroup })
    );
    StopSignalHandle(&mut r);
    assert_eq!(r.Relay(15), None);
    assert!(r.console);
}

#[test]
fn handled_signals_leave_out_kill_and_stop() {
    let s = HandledSignals();
    assert_eq!(s.len(), 29);
    assert_eq!(s[0], 1);
    assert_eq!(s[28], 31);
    assert!(!s.contains(&9));
    assert!(!s.contains(&19));
    assert!(s.contains(&2));
    assert!(s.windows(2).all(|w| w[0] < w[1]));
}

fn step(io: &mut IoThread, running: bool, ready: u64) -> IoAction {
    VirtualMachine::Process(io, running, ready)
}

#[test]
fn io_thread_spins_before_it_sleeps() {
    let mut io = IoThread::New();
    assert_eq!(step(&mut io, true, 0), IoAction::ProcessGuestMsgs);
    assert_eq!(step(&mut io, true, 0), IoAction::PollFds);
    let mut pauses = 0;
    loop {
        match step(&mut io, true, 0) {
            IoAction::Pause => pauses += 1,
            IoAction::WaitInHost => break,
            other => panic!("{:?}", other),
        }
    }
    assert_eq!(pauses, 20000);
    assert_eq!(io.phase, IoPhase::Drowsy);
    assert_eq!(step(&mut io, true, 0), IoAction::BlockOnFds);
    assert_eq!(step(&mut io, true, 0), IoAction::WakeInHost);
    // Nothing to do: back to sleep.
    assert_eq!(step(&mut io, true, 0), IoAction::WaitInHost);
    assert_eq!(step(&mut io, true, 0), IoAction::BlockOnFds);
    assert_eq!(step(&mut io, true, 0), IoAction::WakeInHost);
    // Messages wait: handle them.
    assert_eq!(step(&mut io, true, 3), IoAction::ProcessGuestMsgs);
    assert_eq!(step(&mut io, true, 0), IoAction::PollFds);
}

#[test]
fn io_thread_goes_back_to_the_messages_when_some_arrive() {
    let mut io = IoThread::New();
    step(&mut io, true, 0);
    step(&mut io, true, 0);
    assert_eq!(step(&mut io, true, 0), IoAction::Pause);
    assert_eq!(step(&mut io, true, 1), IoAction::ProcessGuestMsgs);
    assert_eq!(io.phase, IoPhase::Handled);
    // Messages that arrive just as the thread goes to sleep wake it.
    let mut io = IoThread { phase: IoPhase::Drowsy };
    assert_eq!(step(&mut io, true, 2), IoAction::WakeInHost);
    assert_eq!(step(&mut io, true, 2), IoAction::ProcessGuestMsgs);
}

#[test]
fn io_thread_ends_with_the_sandbox() {
    let mut io = IoThread::New();
    step(&mut io, true, 0);
    assert_eq!(step(&mut io, false, 5), IoAction::Close);
    assert_eq!(step(&mut io, true, 5), IoAction::Finished);
    assert_eq!(io.phase, IoPhase::Stopped);
    let mut io = IoThread { phase: IoPhase::Slept };
    assert_eq!(step(&mut io, false, 0), IoAction::Close);
    assert_eq!(step(&mut io, false, 0), IoAction::Finished);
}

#[test]
fn kernel_image_paths() {
    assert_eq!(VirtualMachine::KernelImage(true), "/usr/local/bin/qkernel_d.bin");
    assert_eq!(VirtualMachine::KernelImage(false), "/usr/local/bin/qkernel.bin");
    assert_eq!(quark_core::runtime::vm::VDSO_IMAGE, "/usr/local/bin/vdso.so");
}

#[test]
fn host_file_modes() {
    assert_eq!(FileTypeOf(0o100644), InodeFileType::RegularFile);
    assert_eq!(FileTypeOf(0o040755), InodeFileType::Directory);
    assert_eq!(FileTypeOf(0o120777), InodeFileType::Symlink);
    assert_eq!(FileTypeOf(0o010600), InodeFileType::Pipe);
    assert_eq!(FileTypeOf(0o140600), InodeFileType::Socket);
    assert_eq!(FileTypeOf(0o020620), InodeFileType::CharacterDevice);
    assert_eq!(FileTypeOf(0o060660), InodeFileType::BlockDevice);
    assert_eq!(FileTypeOf(0o000644), InodeFileType::Other);
    assert!(WouldBlock(0o010600) && WouldBlock(0o140600) && WouldBlock(0o020620));
    assert!(!WouldBlock(0o100644) && !WouldBlock(0o060660) && !WouldBlock(0o040755));
    assert!(Seekable(0o100644));
    assert!(!Seekable(0o020620));
}
