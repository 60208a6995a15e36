//! The address space of a task, as far as the loader lays it out.

use vstd::prelude::*;
use crate::fs::attr::Dirent;
use crate::qlib::common::Error;
use crate::qlib::common::SysErr;

verus! {

/// Bytes of a page.
pub const PAGE_SIZE: u64 = 4096;

/// The lowest address that a task may map.
pub const MIN_USER_ADDR: u64 = 0x1_0000;

/// The address just above the highest that a task may map.
pub const MAX_USER_ADDR: u64 = 0x7fff_ffff_f000;

/// `ENOMEM`: no room in the address space.
pub const ENOMEM: i32 = 12;

/// What may be done with mapped memory.
#[derive(Clone, Copy, Debug, PartialEq, Eq, Structural)]
pub struct AccessType {
    pub read: bool,
    pub write: bool,
    pub execute: bool,
}

impl AccessType {
    pub fn ReadOnly() -> (r: AccessType)
        ensures
            r == (AccessType { read: true, write: false, execute: false }),
    {
        AccessType { read: true, write: false, execute: false }
    }

    pub fn ReadWrite() -> (r: AccessType)
        ensures
            r == (AccessType { read: true, write: true, execute: false }),
    {
        AccessType { read: true, write: true, execute: false }
    }

    pub fn Executable() -> (r: AccessType)
        ensures
            r == (AccessType { read: true, write: false, execute: true }),
    {
        AccessType { read: true, write: false, execute: true }
    }
}

/// What a mapping is for.
#[derive(Clone, Copy, Debug, PartialEq, Eq, Structural)]
pub enum MapHint {
    /// Memory without a name.
    Anon,
    /// The page of values that the vDSO reads: `[vvar]`.
    Vvar,
    /// The vDSO: `[vdso]`.
    Vdso,
    /// The stack of the first thread: `[stack]`.
    Stack,
}

/// A request to map memory, and the mapping once it is made.
#[derive(Clone, Copy, Debug, PartialEq, Eq, Structural)]
pub struct MMapOpts {
    pub Length: u64,
    pub Addr: u64,
    /// For a mapping of the vDSO, the physical address that backs it.
    pub Offset: u64,
    /// The mapping must stand at `Addr`.
    pub Fixed: bool,
    pub Perms: AccessType,
    pub MaxPerms: AccessType,
    pub Private: bool,
    pub VDSO: bool,
    pub Kernel: bool,
    pub GrowsDown: bool,
    pub Hint: MapHint,
}

impl MMapOpts {
    /// A request for anonymous memory named `hint`, with nothing else set.
    pub open spec fn anon(hint: MapHint) -> MMapOpts {
        MMapOpts {
            Length: 0,
            Addr: 0,
            Offset: 0,
            Fixed: false,
            Perms: AccessType { read: false, write: false, execute: false },
            MaxPerms: AccessType { read: false, write: false, execute: false },
            Private: false,
            VDSO: false,
            Kernel: false,
            GrowsDown: false,
            Hint: hint,
        }
    }

    pub fn NewAnonOptions(hint: MapHint) -> (r: MMapOpts)
        ensures
            r == MMapOpts::anon(hint),
    {
        MMapOpts {
            Length: 0,
            Addr: 0,
            Offset: 0,
            Fixed: false,
            Perms: AccessType { read: false, write: false, execute: false },
            MaxPerms: AccessType { read: false, write: false, execute: false },
            Private: false,
            VDSO: false,
            Kernel: false,
            GrowsDown: false,
            Hint: hint,
        }
    }
}

/// A run of addresses: `len` bytes from `start`.
#[derive(Clone, Copy, Debug, PartialEq, Eq, Structural)]
pub struct Range {
    pub start: u64,
    pub len: u64,
}

impl Range {
    pub fn New(start: u64, len: u64) -> (r: Range)
        ensures
            r == (Range { start, len }),
    {
        Range { start, len }
    }

    /// The address just after the run.
    pub fn End(&self) -> (r: u64)
        requires
            self.start + self.len <= u64::MAX,
        ensures
            r == self.start + self.len,
    {
        self.start + self.len
    }
}

/// The address from which free memory is handed out, given the mappings
/// made: the end of the highest one, and `MIN_USER_ADDR` at the least.
pub open spec fn Frontier(vmas: Seq<MMapOpts>) -> int
    decreases vmas.len(),
{
    if vmas.len() == 0 {
        MIN_USER_ADDR as int
    } else {
        let rest = Frontier(vmas.drop_last());
        let end = vmas.last().Addr + vmas.last().Length;
        if end > rest {
            end
        } else {
            rest
        }
    }
}

/// Whether `addr` begins a page.
pub open spec fn PageAligned(addr: int) -> bool {
    addr % 4096 == 0
}

/// What a request for the mapping `o` returns, given the mappings made.
///
/// `EINVAL` for a length that is 0 or no whole number of pages, and for a
/// fixed address that begins no page. `ENOMEM` if the mapping would go
/// past the addresses of a task. Else a fixed mapping stands at its
/// address, and any other at the frontier.
pub open spec fn MapResult(vmas: Seq<MMapOpts>, o: MMapOpts) -> Result<u64, Error> {
    if o.Length == 0 || !PageAligned(o.Length as int) || (o.Fixed && !PageAligned(o.Addr as int)) {
        Err(Error::SysError(SysErr::EINVAL))
    } else if o.Fixed {
        if o.Addr + o.Length > MAX_USER_ADDR {
            Err(Error::SysError(ENOMEM))
        } else {
            Ok(o.Addr)
        }
    } else if Frontier(vmas) + o.Length > MAX_USER_ADDR {
        Err(Error::SysError(ENOMEM))
    } else {
        Ok(Frontier(vmas) as u64)
    }
}

/// The mappings after a request for `o`: with the one made, at the address
/// it got, if one was made.
pub open spec fn Mapped(vmas: Seq<MMapOpts>, o: MMapOpts) -> Seq<MMapOpts> {
    match MapResult(vmas, o) {
        Ok(addr) => vmas.push(MMapOpts { Addr: addr, ..o }),
        Err(_) => vmas,
    }
}

/// The address space of a task.
pub struct MemoryManager {
    /// The mappings, in the order in which they were made.
    pub vmas: Vec<MMapOpts>,
    /// Where the heap of the program begins.
    pub brk: u64,
    /// The file that the task runs.
    pub executable: Option<Dirent>,
}

/// A `MemoryManager` as a value.
pub struct MemoryView {
    pub vmas: Seq<MMapOpts>,
    pub brk: u64,
    pub executable: Option<Dirent>,
}

impl View for MemoryManager {
    type V = MemoryView;

    open spec fn view(&self) -> MemoryView {
        MemoryView { vmas: self.vmas@, brk: self.brk, executable: self.executable }
    }
}

impl MemoryView {
    /// Every mapping lies below `MAX_USER_ADDR` and is made of whole pages.
    pub open spec fn wf(self) -> bool {
        forall|i: int|
            0 <= i < self.vmas.len() ==> (#[trigger] self.vmas[i]).Addr + self.vmas[i].Length <= MAX_USER_ADDR
                && PageAligned(self.vmas[i].Addr as int) && PageAligned(self.vmas[i].Length as int)
    }
}

/// The frontier begins a page and lies within the addresses of a task.
pub proof fn lemma_frontier(vmas: Seq<MMapOpts>)
    requires
        (MemoryView { vmas, brk: 0, executable: None }).wf(),
    ensures
        MIN_USER_ADDR <= Frontier(vmas) <= MAX_USER_ADDR,
        PageAligned(Frontier(vmas)),
    decreases vmas.len(),
{
    if vmas.len() > 0 {
        let rest = vmas.drop_last();
        assert forall|i: int| 0 <= i < rest.len() implies (#[trigger] rest[i]).Addr + rest[i].Length <= MAX_USER_ADDR
            && PageAligned(rest[i].Addr as int) && PageAligned(rest[i].Length as int) by {
            assert(rest[i] == vmas[i]);
        }
        lemma_frontier(rest);
        assert(vmas.last() == vmas[vmas.len() - 1]);
    }
}

impl MemoryManager {
    /// An address space without mappings.
    pub fn New() -> (r: MemoryManager)
        ensures
            r@ == (MemoryView { vmas: Seq::empty(), brk: 0, executable: None }),
            r@.wf(),
    {
        MemoryManager { vmas: Vec::new(), brk: 0, executable: None }
    }

    /// The address from which free memory is handed out.
    fn frontier(&self) -> (r: u64)
        requires
            self@.wf(),
        ensures
            r == Frontier(self@.vmas),
    {
        let mut top: u64 = MIN_USER_ADDR;
        let n = self.vmas.len();
        let mut i: usize = 0;
        assert(self.vmas@.take(0) =~= Seq::<MMapOpts>::empty());
        while i < n
            invariant
                i <= n,
                n == self.vmas@.len(),
                self@.wf(),
                top == Frontier(self.vmas@.take(i as int)),
            decreases n - i,
        {
            proof {
                let t = self.vmas@.take(i as int + 1);
                assert(t.drop_last() =~= self.vmas@.take(i as int));
                assert(t.last() == self.vmas@[i as int]);
            }
            let end = self.vmas[i].Addr + self.vmas[i].Length;
            if end > top {
                top = end;
            }
            i = i + 1;
        }
        assert(self.vmas@.take(n as int) =~= self.vmas@);
        top
    }

    /// An address at which `length` bytes are free.
    pub fn FindAvailableSeg(&self, hint: u64, length: u64) -> (r: Result<u64, Error>)
        requires
            self@.wf(),
        ensures
            r == if Frontier(self@.vmas) + length > MAX_USER_ADDR {
                Err::<u64, Error>(Error::SysError(ENOMEM))
            } else {
                Ok::<u64, Error>(Frontier(self@.vmas) as u64)
            },
    {
        proof {
            lemma_frontier(self@.vmas);
        }
        let top = self.frontier();
        if length > MAX_USER_ADDR - top {
            return Err(Error::SysError(ENOMEM));
        }
        Ok(top)
    }

    /// Maps memory as `opts` asks, and returns where it stands.
    pub fn MMap(&mut self, opts: &MMapOpts) -> (r: Result<u64, Error>)
        requires
            old(self)@.wf(),
        ensures
            r == MapResult(old(self)@.vmas, *opts),
            final(self)@ == (MemoryView { vmas: Mapped(old(self)@.vmas, *opts), ..old(self)@ }),
            final(self)@.wf(),
    {
        proof {
            lemma_frontier(self@.vmas);
        }
        if opts.Length == 0 || opts.Length % PAGE_SIZE != 0 || (opts.Fixed && opts.Addr % PAGE_SIZE != 0) {
            return Err(Error::SysError(SysErr::EINVAL));
        }
        let addr = if opts.Fixed {
            if opts.Addr > MAX_USER_ADDR || opts.Length > MAX_USER_ADDR - opts.Addr {
                return Err(Error::SysError(ENOMEM));
            }
            opts.Addr
        } else {
            let top = self.frontier();
            if opts.Length > MAX_USER_ADDR - top {
                return Err(Error::SysError(ENOMEM));
            }
            top
        };
        let mut made = *opts;
        made.Addr = addr;
        self.vmas.push(made);
        Ok(addr)
    }

    /// The address just above the stack of the first thread.
    pub fn MapStackAddr(&self) -> (r: u64)
        ensures
            r == MAX_USER_ADDR,
    {
        MAX_USER_ADDR
    }

    /// Sets where the heap of the program begins.
    pub fn BrkSetup(&mut self, addr: u64)
        ensures
            final(self)@ == (MemoryView { brk: addr, ..old(self)@ }),
    {
        self.brk = addr;
    }

    /// Sets the file that the task runs.
    pub fn SetExecutable(&mut self, d: &Dirent)
        ensures
            final(self)@ == (MemoryView { executable: Some(*d), ..old(self)@ }),
    {
        self.executable = Some(*d);
    }
}

} // verus!
