//! What the supervisor works out before it asks the host for a virtual
//! machine, and how its IO thread decides what to do next.

use vstd::prelude::*;

verus! {

/// The number that `kvm_bindings::KVM_CAP_X86_DISABLE_EXITS` gives to the
/// capability of the host to keep instructions of the guest from leaving
/// the virtual machine: 143 in the host's interface.
#[verifier::external_body]
fn CapDisableExits() -> (r: u32)
    ensures
        r == 143,
{
    kvm_bindings::KVM_CAP_X86_DISABLE_EXITS
}

/// The bit that `kvm_bindings::KVM_X86_DISABLE_EXITS_HLT` gives to `HLT`
/// in the argument of that capability: 2.
#[verifier::external_body]
fn DisableExitsHlt() -> (r: u32)
    ensures
        r == 2,
{
    kvm_bindings::KVM_X86_DISABLE_EXITS_HLT
}

/// The bit that `kvm_bindings::KVM_X86_DISABLE_EXITS_MWAIT` gives to
/// `MWAIT` in the argument of that capability: 1.
#[verifier::external_body]
fn DisableExitsMwait() -> (r: u32)
    ensures
        r == 1,
{
    kvm_bindings::KVM_X86_DISABLE_EXITS_MWAIT
}

/// The exit status of the sandbox while it runs.
pub const RUNNING: i32 = -1;

/// The status with which the sandbox has ended, or `RUNNING`.
#[derive(Clone, Copy, Debug, PartialEq, Eq, Structural)]
pub struct VmExitStatus(pub i32);

impl VmExitStatus {
    /// The status of a sandbox that runs.
    pub fn New() -> (r: VmExitStatus)
        ensures
            r.0 == RUNNING,
    {
        VmExitStatus(RUNNING)
    }
}

/// Whether the sandbox runs.
pub fn IsRunning(status: &VmExitStatus) -> (r: bool)
    ensures
        r == (status.0 == RUNNING),
{
    status.0 == RUNNING
}

/// Records the status with which the sandbox ends.
pub fn SetExitStatus(cell: &mut VmExitStatus, status: i32)
    ensures
        final(cell).0 == status,
{
    cell.0 = status;
}

/// The status recorded.
pub fn GetExitStatus(cell: &VmExitStatus) -> (r: i32)
    ensures
        r == cell.0,
{
    cell.0
}

/// The size of the kernel heap is 2 to this power: 16 GB.
pub const KERNEL_HEAP_ORD: usize = 34;

/// The size of the page pool is 2 to this power.
pub const PAGE_POOL_ORD: usize = 26;

/// Bytes of bootstrap memory that each vCPU gets, a whole number of pages.
pub const VCPU_BOOTSTRAP_MEM_SIZE: usize = 0x8000;

/// A run of memory from which pages are handed out one after the other.
#[derive(Clone, Copy, Debug, PartialEq, Eq, Structural)]
pub struct SimplePageAllocator {
    pub next: u64,
    pub end: u64,
}

/// The memory that the guest kernel starts with: the bootstrap memory of
/// each vCPU, one after the other from `startAddr`, and then the page
/// pool.
#[derive(Clone, Copy, Debug, PartialEq, Eq, Structural)]
pub struct BootStrapMem {
    pub startAddr: u64,
    pub vcpuCount: usize,
}

impl BootStrapMem {
    /// Bytes of the page pool.
    pub const PAGE_POOL_SIZE: usize = 0x400_0000;

    /// Bytes of the whole bootstrap memory.
    pub open spec fn size(self) -> int {
        self.vcpuCount * VCPU_BOOTSTRAP_MEM_SIZE + BootStrapMem::PAGE_POOL_SIZE
    }

    /// The memory fits the address space.
    pub open spec fn wf(self) -> bool {
        self.startAddr + self.size() <= u64::MAX && self.size() <= usize::MAX
    }

    pub fn New(startAddr: u64, vcpuCount: usize) -> (r: Self)
        ensures
            r == (BootStrapMem { startAddr, vcpuCount }),
    {
        Self { startAddr, vcpuCount }
    }

    /// Bytes of the whole bootstrap memory.
    pub fn Size(&self) -> (r: usize)
        requires
            self.wf(),
        ensures
            r == self.size(),
    {
        assert(self.vcpuCount * VCPU_BOOTSTRAP_MEM_SIZE <= self.size()) by (nonlinear_arith)
            requires
                self.size() == self.vcpuCount * VCPU_BOOTSTRAP_MEM_SIZE + 0x400_0000,
        ;
        self.vcpuCount * VCPU_BOOTSTRAP_MEM_SIZE + Self::PAGE_POOL_SIZE
    }

    /// Where the bootstrap memory of vCPU `idx` begins.
    pub fn VcpuBootstrapMem(&self, idx: usize) -> (r: u64)
        requires
            self.wf(),
            idx < self.vcpuCount,
        ensures
            r == self.startAddr + idx * VCPU_BOOTSTRAP_MEM_SIZE,
    {
        assert(idx * VCPU_BOOTSTRAP_MEM_SIZE <= self.vcpuCount * VCPU_BOOTSTRAP_MEM_SIZE) by (nonlinear_arith)
            requires
                idx < self.vcpuCount,
        ;
        self.startAddr + (idx * VCPU_BOOTSTRAP_MEM_SIZE) as u64
    }

    /// The allocator of the page pool, which begins where the bootstrap
    /// memory of the last vCPU ends.
    pub fn SimplePageAllocator(&self) -> (r: SimplePageAllocator)
        requires
            self.wf(),
        ensures
            r.next == self.startAddr + self.vcpuCount * VCPU_BOOTSTRAP_MEM_SIZE,
            r.end == self.startAddr + self.size(),
    {
        assert(self.vcpuCount * VCPU_BOOTSTRAP_MEM_SIZE <= self.size()) by (nonlinear_arith)
            requires
                self.size() == self.vcpuCount * VCPU_BOOTSTRAP_MEM_SIZE + 0x400_0000,
        ;
        let addr = self.startAddr + (self.vcpuCount * VCPU_BOOTSTRAP_MEM_SIZE) as u64;
        SimplePageAllocator { next: addr, end: addr + Self::PAGE_POOL_SIZE as u64 }
    }
}

/// A slot of guest memory as the host is asked for it.
#[derive(Clone, Copy, Debug, PartialEq, Eq, Structural)]
pub struct MemRegion {
    pub slot: u32,
    pub guest_phys_addr: u64,
    pub memory_size: u64,
    pub userspace_addr: u64,
    pub flags: u32,
}

/// A capability of the host's virtual machine to switch on.
#[derive(Clone, Copy, Debug, PartialEq, Eq, Structural)]
pub struct EnableCap {
    pub cap: u32,
    pub arg0: u64,
}

/// One GB.
pub const ONE_GB: u64 = 0x4000_0000;

/// Where the memory of the guest begins, in the guest and in the host.
pub const PHY_LOWER_ADDR: u64 = 0x40_0000_0000;

/// How far into the guest's memory the kernel heap begins.
pub const HEAP_OFFSET: u64 = 0x4000_0000;

/// The slot that the guest's memory goes in.
pub const KERNEL_MEM_SLOT: u32 = 1;

/// What the supervisor is configured with.
#[derive(Clone, Copy, Debug, PartialEq, Eq, Structural)]
pub struct VmConfig {
    /// The vCPUs that the host grants.
    pub VCPUCount: usize,
    /// How many of them serve the submission ring alone; 0 stands for 1.
    pub DedicateUring: usize,
    /// The memory of the guest, in GB.
    pub KernelMemSize: u64,
}

/// What the supervisor asks the host for.
#[derive(Clone, Copy, Debug, PartialEq, Eq, Structural)]
pub struct VmPlan {
    /// The vCPUs that run the guest.
    pub cpuCount: usize,
    /// The one slot of guest memory.
    pub region: MemRegion,
    /// Where the memory that the host keeps for the guest's heap begins.
    pub heapStart: u64,
    pub heapSize: u64,
    /// The exits to switch off.
    pub cap: EnableCap,
}

/// Where the image of the guest kernel lies, in a build for debugging.
pub const KERNEL_IMAGE_DEBUG: &'static str = "/usr/local/bin/qkernel_d.bin";

/// Where the image of the guest kernel lies, in a build for release.
pub const KERNEL_IMAGE_RELEASE: &'static str = "/usr/local/bin/qkernel.bin";

/// Where the vDSO lies.
pub const VDSO_IMAGE: &'static str = "/usr/local/bin/vdso.so";

pub struct VirtualMachine {}

impl VirtualMachine {
    /// How many events the IO thread takes at once.
    pub const EVENT_COUNT: usize = 128;

    /// The file that holds the image of the guest kernel.
    pub fn KernelImage(debug: bool) -> (r: &'static str)
        ensures
            r@ == if debug {
                KERNEL_IMAGE_DEBUG@
            } else {
                KERNEL_IMAGE_RELEASE@
            },
    {
        if debug {
            KERNEL_IMAGE_DEBUG
        } else {
            KERNEL_IMAGE_RELEASE
        }
    }

    /// The slot `slotId` of `pageMmapsize` bytes that puts the host's
    /// memory at `hostAddr` at `phyAddr` in the guest.
    pub fn SetMemRegion(slotId: u32, phyAddr: u64, hostAddr: u64, pageMmapsize: u64) -> (r: MemRegion)
        ensures
            r == (MemRegion {
                slot: slotId,
                guest_phys_addr: phyAddr,
                memory_size: pageMmapsize,
                userspace_addr: hostAddr,
                flags: 0,
            }),
    {
        MemRegion {
            slot: slotId,
            guest_phys_addr: phyAddr,
            memory_size: pageMmapsize,
            userspace_addr: hostAddr,
            flags: 0,
        }
    }

    /// The capability that keeps `HLT` and `MWAIT` in the guest from
    /// leaving the virtual machine.
    pub fn DisableExits() -> (r: EnableCap)
        ensures
            r == (EnableCap { cap: 143, arg0: 3 }),
    {
        let hlt: u32 = DisableExitsHlt();
        let mwait: u32 = DisableExitsMwait();
        assert(2u32 | 1u32 == 3u32) by (bit_vector);
        EnableCap { cap: CapDisableExits(), arg0: (hlt | mwait) as u64 }
    }

    /// Whether the configuration leaves a vCPU for the guest and asks for
    /// memory that has room for the start of the heap and fits the address
    /// space.
    pub open spec fn configOk(cfg: VmConfig) -> bool {
        &&& cfg.VCPUCount > (if cfg.DedicateUring == 0 {
            1
        } else {
            cfg.DedicateUring
        })
        &&& 1 <= cfg.KernelMemSize
        &&& PHY_LOWER_ADDR + cfg.KernelMemSize * ONE_GB <= u64::MAX
    }

    /// What to ask the host for under `cfg`.
    ///
    /// The guest gets the vCPUs that the submission ring leaves, and one
    /// slot of memory that stands at the same address in guest and host;
    /// the heap begins `HEAP_OFFSET` into it and takes the rest.
    pub fn Init(cfg: &VmConfig) -> (r: VmPlan)
        requires
            VirtualMachine::configOk(*cfg),
        ensures
            r.cpuCount == cfg.VCPUCount - (if cfg.DedicateUring == 0 {
                1
            } else {
                cfg.DedicateUring as int
            }),
            r.cpuCount >= 1,
            r.region == (MemRegion {
                slot: KERNEL_MEM_SLOT,
                guest_phys_addr: PHY_LOWER_ADDR,
                memory_size: (cfg.KernelMemSize * ONE_GB) as u64,
                userspace_addr: PHY_LOWER_ADDR,
                flags: 0,
            }),
            r.region.guest_phys_addr == r.region.userspace_addr,
            r.heapStart == PHY_LOWER_ADDR + HEAP_OFFSET,
            r.heapSize == cfg.KernelMemSize * ONE_GB - HEAP_OFFSET,
            r.cap == (EnableCap { cap: 143, arg0: 3 }),
    {
        let cnt = if cfg.DedicateUring == 0 {
            1
        } else {
            cfg.DedicateUring
        };
        let cpuCount = cfg.VCPUCount - cnt;
        assert(cfg.KernelMemSize * ONE_GB >= 0x4000_0000) by (nonlinear_arith)
            requires
                cfg.KernelMemSize >= 1,
                ONE_GB == 0x4000_0000,
        ;
        let size = cfg.KernelMemSize * ONE_GB;
        VmPlan {
            cpuCount,
            region: Self::SetMemRegion(KERNEL_MEM_SLOT, PHY_LOWER_ADDR, PHY_LOWER_ADDR, size),
            heapStart: PHY_LOWER_ADDR + HEAP_OFFSET,
            heapSize: size - HEAP_OFFSET,
            cap: Self::DisableExits(),
        }
    }
}


/// How often the IO thread looks for messages of the guest before it goes
/// to sleep: 10 rounds of 2000 looks.
pub const IO_SPIN_LIMIT: u32 = 20000;

/// Where the IO thread stands in its loop.
#[derive(Clone, Copy, Debug, PartialEq, Eq, Structural)]
pub enum IoPhase {
    /// About to handle the messages of the guest.
    Messages,
    /// The messages are handled.
    Handled,
    /// Looking for new messages without sleeping; so many looks found
    /// none.
    Spinning(u32),
    /// Has told the guest that it goes to sleep.
    Drowsy,
    /// Has slept until a host descriptor became ready.
    Slept,
    /// Has told the guest that it is awake again.
    Awake,
    /// The sandbox has ended, and the thread with it.
    Stopped,
}

/// What the IO thread does next.
#[derive(Clone, Copy, Debug, PartialEq, Eq, Structural)]
pub enum IoAction {
    /// Handle the messages that the guest has sent.
    ProcessGuestMsgs,
    /// Look at the host descriptors without waiting, and notify.
    PollFds,
    /// Pause the processor for a moment.
    Pause,
    /// Tell the guest that the thread goes to sleep, and pause a moment.
    WaitInHost,
    /// Sleep until a host descriptor is ready, and notify.
    BlockOnFds,
    /// Tell the guest that the thread is awake.
    WakeInHost,
    /// Close the space of the virtual machine and end the thread.
    Close,
    /// Nothing: the thread has ended.
    Finished,
}

/// The state of the IO thread, which pumps messages between guest and
/// host.
#[derive(Clone, Copy, Debug, PartialEq, Eq, Structural)]
pub struct IoThread {
    pub phase: IoPhase,
}

impl IoThread {
    /// An IO thread at the start of its loop.
    pub fn New() -> (r: IoThread)
        ensures
            r.phase == IoPhase::Messages,
    {
        IoThread { phase: IoPhase::Messages }
    }

    /// The phase after a step from `phase`, where `running` says whether
    /// the sandbox runs and `ready` how many messages of the guest wait.
    pub open spec fn nextPhase(phase: IoPhase, running: bool, ready: u64) -> IoPhase {
        match phase {
            IoPhase::Messages => IoPhase::Handled,
            IoPhase::Handled => if running {
                IoPhase::Spinning(0)
            } else {
                IoPhase::Stopped
            },
            IoPhase::Spinning(n) => if ready > 0 {
                IoPhase::Handled
            } else if n < IO_SPIN_LIMIT {
                IoPhase::Spinning((n + 1) as u32)
            } else {
                IoPhase::Drowsy
            },
            IoPhase::Drowsy => if ready > 0 {
                IoPhase::Messages
            } else {
                IoPhase::Slept
            },
            IoPhase::Slept => if running {
                IoPhase::Awake
            } else {
                IoPhase::Stopped
            },
            IoPhase::Awake => if ready > 0 {
                IoPhase::Handled
            } else {
                IoPhase::Drowsy
            },
            IoPhase::Stopped => IoPhase::Stopped,
        }
    }

    /// What the thread does on that step.
    ///
    /// The thread handles the messages of the guest, ends if the sandbox
    /// has ended, and looks at the host descriptors. Then it looks for new
    /// messages up to `IO_SPIN_LIMIT` times, pausing in between, and goes
    /// back to handle them once there are some. Without any it tells the
    /// guest that it sleeps and, unless messages came just then, sleeps
    /// until a host descriptor is ready; it ends if the sandbox has ended
    /// meanwhile, tells the guest that it is awake, and goes back to the
    /// messages if there are some, else to sleep again.
    pub open spec fn action(phase: IoPhase, running: bool, ready: u64) -> IoAction {
        match phase {
            IoPhase::Messages => IoAction::ProcessGuestMsgs,
            IoPhase::Handled => if running {
                IoAction::PollFds
            } else {
                IoAction::Close
            },
            IoPhase::Spinning(n) => if ready > 0 {
                IoAction::ProcessGuestMsgs
            } else if n < IO_SPIN_LIMIT {
                IoAction::Pause
            } else {
                IoAction::WaitInHost
            },
            IoPhase::Drowsy => if ready > 0 {
                IoAction::WakeInHost
            } else {
                IoAction::BlockOnFds
            },
            IoPhase::Slept => if running {
                IoAction::WakeInHost
            } else {
                IoAction::Close
            },
            IoPhase::Awake => if ready > 0 {
                IoAction::ProcessGuestMsgs
            } else {
                IoAction::WaitInHost
            },
            IoPhase::Stopped => IoAction::Finished,
        }
    }
}

/// Once the sandbox has an exit status, the IO thread closes the space of
/// the virtual machine at the next point where it looks at the status, and
/// then does nothing more.
pub proof fn lemma_io_thread_stops(ready: u64, later: bool, waiting: u64)
    ensures
        IoThread::action(IoPhase::Handled, false, ready) == IoAction::Close,
        IoThread::action(IoPhase::Slept, false, ready) == IoAction::Close,
        IoThread::nextPhase(IoPhase::Handled, false, ready) == IoPhase::Stopped,
        IoThread::nextPhase(IoPhase::Slept, false, ready) == IoPhase::Stopped,
        IoThread::nextPhase(IoPhase::Stopped, later, waiting) == IoPhase::Stopped,
        IoThread::action(IoPhase::Stopped, later, waiting) == IoAction::Finished,
{
}

impl VirtualMachine {
    /// One step of the IO thread: says what the thread does next, given
    /// whether the sandbox runs and how many messages of the guest wait,
    /// and moves `io` on. Whoever drives the thread does what is said and
    /// asks again.
    pub fn Process(io: &mut IoThread, running: bool, ready: u64) -> (r: IoAction)
        ensures
            r == IoThread::action(old(io).phase, running, ready),
            final(io).phase == IoThread::nextPhase(old(io).phase, running, ready),
    {
        match io.phase {
            IoPhase::Messages => {
                io.phase = IoPhase::Handled;
                IoAction::ProcessGuestMsgs
            },
            IoPhase::Handled => {
                if !running {
                    io.phase = IoPhase::Stopped;
                    return IoAction::Close;
                }
                io.phase = IoPhase::Spinning(0);
                IoAction::PollFds
            },
            IoPhase::Spinning(n) => {
                if ready > 0 {
                    io.phase = IoPhase::Handled;
                    return IoAction::ProcessGuestMsgs;
                }
                if n < IO_SPIN_LIMIT {
                    io.phase = IoPhase::Spinning(n + 1);
                    return IoAction::Pause;
                }
                io.phase = IoPhase::Drowsy;
                IoAction::WaitInHost
            },
            IoPhase::Drowsy => {
                if ready > 0 {
                    io.phase = IoPhase::Messages;
                    return IoAction::WakeInHost;
                }
                io.phase = IoPhase::Slept;
                IoAction::BlockOnFds
            },
            IoPhase::Slept => {
                if !running {
                    io.phase = IoPhase::Stopped;
                    return IoAction::Close;
                }
                io.phase = IoPhase::Awake;
                IoAction::WakeInHost
            },
            IoPhase::Awake => {
                if ready > 0 {
                    io.phase = IoPhase::Handled;
                    return IoAction::ProcessGuestMsgs;
                }
                io.phase = IoPhase::Drowsy;
                IoAction::WaitInHost
            },
            IoPhase::Stopped => IoAction::Finished,
        }
    }
}

} // verus!
