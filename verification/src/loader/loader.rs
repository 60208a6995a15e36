//! Loads a program into the address space of a task.

use vstd::prelude::*;
use crate::fs::attr::Dirent;
use crate::fs::attr::InodeFileType;
use crate::fs::flags::FileFlags;
use crate::loader::user_stack::AuxEntry;
use crate::loader::user_stack::AuxVec;
use crate::loader::user_stack::PlanStack;
use crate::loader::user_stack::StackMap;
use crate::loader::user_stack::Texts;
use crate::loader::user_stack::UserStackPlan;
use crate::memmgr::AccessType;
use crate::memmgr::ENOMEM;
use crate::memmgr::Frontier;
use crate::memmgr::MAX_USER_ADDR;
use crate::memmgr::MMapOpts;
use crate::memmgr::MapHint;
use crate::memmgr::MapResult;
use crate::memmgr::Mapped;
use crate::memmgr::MemoryManager;
use crate::memmgr::MemoryView;
use crate::memmgr::PAGE_SIZE;
use crate::memmgr::Range;
use crate::memmgr::lemma_frontier;
use crate::qlib::common::Error;
use crate::qlib::common::SysErr;

verus! {

/// How often the loader follows an interpreter script before it gives up:
/// the first file and five more.
pub const MAX_LOADER_ATTEMPTS: usize = 6;

/// Bytes of the stack of a new program.
pub const DEFAULT_STACK_SOFT_LIMIT: u64 = 0x80_0000;

/// Bytes of the name of a thread, its final 0 counted.
pub const TASK_COMM_LEN: usize = 16;

/// Bytes of the kernel stack of a task.
pub const DEFAULT_STACK_SIZE: u64 = 0x8000;

/// Whether two runs of bytes are the same.
pub fn SliceCompare(left: &[u8], right: &[u8]) -> (r: bool)
    ensures
        r == (left@ == right@),
{
    if left.len() != right.len() {
        return false;
    }
    let mut i: usize = 0;
    while i < left.len()
        invariant
            i <= left@.len(),
            left@.len() == right@.len(),
            forall|k: int| 0 <= k < i ==> left@[k] == right@[k],
        decreases left@.len() - i,
    {
        if left[i] != right[i] {
            return false;
        }
        i = i + 1;
    }
    assert(left@ =~= right@);
    true
}

/// The request for the page of values that the vDSO reads: one page at
/// `virtualAddr`, read-only and private, backed by the physical page at
/// `vdsoParamPageAddr`.
pub open spec fn VvarOpts(virtualAddr: u64, vdsoParamPageAddr: u64) -> MMapOpts {
    MMapOpts {
        Length: PAGE_SIZE,
        Addr: virtualAddr,
        Fixed: true,
        Perms: AccessType { read: true, write: false, execute: false },
        MaxPerms: AccessType { read: true, write: false, execute: false },
        Private: true,
        VDSO: true,
        Kernel: false,
        Offset: vdsoParamPageAddr,
        ..MMapOpts::anon(MapHint::Vvar)
    }
}

/// The request for the vDSO: two pages at `virtualAddr`, executable and
/// shared, backed by the physical pages at `vdsoAddr`.
pub open spec fn VdsoOpts(virtualAddr: u64, vdsoAddr: u64) -> MMapOpts {
    MMapOpts {
        Length: (2 * PAGE_SIZE) as u64,
        Addr: virtualAddr,
        Fixed: true,
        Perms: AccessType { read: true, write: false, execute: true },
        MaxPerms: AccessType { read: true, write: false, execute: true },
        Private: false,
        VDSO: true,
        Kernel: false,
        Offset: vdsoAddr,
        ..MMapOpts::anon(MapHint::Vdso)
    }
}

/// The request for the stack that ends at `stackEnd`.
pub open spec fn StackOpts(stackEnd: u64) -> MMapOpts {
    MMapOpts {
        Length: DEFAULT_STACK_SOFT_LIMIT,
        Addr: (stackEnd - DEFAULT_STACK_SOFT_LIMIT) as u64,
        Fixed: true,
        Perms: AccessType { read: true, write: true, execute: false },
        MaxPerms: AccessType { read: true, write: true, execute: false },
        Private: true,
        GrowsDown: true,
        ..MMapOpts::anon(MapHint::Stack)
    }
}

/// Maps the page of values that the vDSO reads.
pub fn MapVDSOParamPage(mm: &mut MemoryManager, virtualAddr: u64, vdsoParamPageAddr: u64) -> (r: Result<u64, Error>)
    requires
        old(mm)@.wf(),
    ensures
        r == MapResult(old(mm)@.vmas, VvarOpts(virtualAddr, vdsoParamPageAddr)),
        final(mm)@ == (MemoryView { vmas: Mapped(old(mm)@.vmas, VvarOpts(virtualAddr, vdsoParamPageAddr)), ..old(mm)@ }),
        final(mm)@.wf(),
{
    let mut moptions = MMapOpts::NewAnonOptions(MapHint::Vvar);
    moptions.Length = PAGE_SIZE;
    moptions.Addr = virtualAddr;
    moptions.Fixed = true;
    moptions.Perms = AccessType::ReadOnly();
    moptions.MaxPerms = AccessType::ReadOnly();
    moptions.Private = true;
    moptions.VDSO = true;
    moptions.Kernel = false;
    // The offset holds the physical address.
    moptions.Offset = vdsoParamPageAddr;
    mm.MMap(&moptions)
}

/// Maps the vDSO.
pub fn MapVDSOPage(mm: &mut MemoryManager, virtualAddr: u64, vdsoAddr: u64) -> (r: Result<u64, Error>)
    requires
        old(mm)@.wf(),
    ensures
        r == MapResult(old(mm)@.vmas, VdsoOpts(virtualAddr, vdsoAddr)),
        final(mm)@ == (MemoryView { vmas: Mapped(old(mm)@.vmas, VdsoOpts(virtualAddr, vdsoAddr)), ..old(mm)@ }),
        final(mm)@.wf(),
{
    let mut moptions = MMapOpts::NewAnonOptions(MapHint::Vdso);
    moptions.Length = 2 * PAGE_SIZE;
    moptions.Addr = virtualAddr;
    moptions.Fixed = true;
    moptions.Perms = AccessType::Executable();
    moptions.MaxPerms = AccessType::Executable();
    moptions.Private = false;
    moptions.VDSO = true;
    moptions.Kernel = false;
    // The offset holds the physical address.
    moptions.Offset = vdsoAddr;
    mm.MMap(&moptions)
}

/// Where three free pages are found for the vDSO, if they are.
pub open spec fn VdsoBase(vmas: Seq<MMapOpts>) -> Option<u64> {
    if Frontier(vmas) + 3 * PAGE_SIZE > MAX_USER_ADDR {
        None
    } else {
        Some(Frontier(vmas) as u64)
    }
}

/// Maps the vDSO of a new program into three free pages: the page of
/// values first, read-only, and right behind it the two pages of code,
/// backed by the physical pages from `vdsoParamPageAddr` on. Returns the
/// address of the code.
pub fn LoadVDSO(mm: &mut MemoryManager, vdsoParamPageAddr: u64) -> (r: Result<u64, Error>)
    requires
        old(mm)@.wf(),
        vdsoParamPageAddr <= u64::MAX - PAGE_SIZE,
    ensures
        final(mm)@.wf(),
        match VdsoBase(old(mm)@.vmas) {
            Some(base) => {
                &&& r == Ok::<u64, Error>((base + PAGE_SIZE) as u64)
                &&& final(mm)@ == (MemoryView {
                    vmas: old(mm)@.vmas.push(VvarOpts(base, vdsoParamPageAddr)).push(
                        VdsoOpts((base + PAGE_SIZE) as u64, (vdsoParamPageAddr + PAGE_SIZE) as u64),
                    ),
                    ..old(mm)@
                })
            },
            None => r == Err::<u64, Error>(Error::SysError(ENOMEM)) && final(mm)@ == old(mm)@,
        },
{
    proof {
        lemma_frontier(mm@.vmas);
    }
    let vAddr = mm.FindAvailableSeg(0, 3 * PAGE_SIZE)?;
    let paramVAddr = MapVDSOParamPage(mm, vAddr, vdsoParamPageAddr)?;
    let vdsoVAddr = MapVDSOPage(mm, paramVAddr + PAGE_SIZE, vdsoParamPageAddr + PAGE_SIZE)?;
    Ok(vdsoVAddr)
}

/// Maps the stack of a new program, which ends at the top of the
/// addresses of a task, and returns where it lies.
pub fn CreateStack(mm: &mut MemoryManager) -> (r: Result<Range, Error>)
    requires
        old(mm)@.wf(),
    ensures
        r == Ok::<Range, Error>(
            Range { start: (MAX_USER_ADDR - DEFAULT_STACK_SOFT_LIMIT) as u64, len: DEFAULT_STACK_SOFT_LIMIT },
        ),
        final(mm)@ == (MemoryView { vmas: old(mm)@.vmas.push(StackOpts(MAX_USER_ADDR)), ..old(mm)@ }),
        final(mm)@.wf(),
{
    let stackSize = DEFAULT_STACK_SOFT_LIMIT;
    let stackEnd = mm.MapStackAddr();
    let stackStart = stackEnd - stackSize;
    let mut moptions = MMapOpts::NewAnonOptions(MapHint::Stack);
    moptions.Length = stackSize;
    moptions.Addr = stackStart;
    moptions.Fixed = true;
    moptions.Perms = AccessType::ReadWrite();
    moptions.MaxPerms = AccessType::ReadWrite();
    moptions.Private = true;
    moptions.GrowsDown = true;
    let _addr = mm.MMap(&moptions)?;
    Ok(Range::New(stackStart, stackSize))
}

/// Checks a file found for `filename` before it is opened to be run, and
/// gives the flags to open it with: for reading. `permission` is what the
/// check of the task's right to read and run the file gave.
///
/// The error of the permission check, if it failed; `ENOTDIR` for a name
/// that ends in `/` and names a directory.
pub fn OpenPath(filename: &[u8], d: &Dirent, permission: Result<(), Error>) -> (r: Result<FileFlags, Error>)
    ensures
        r == match permission {
            Err(e) => Err::<FileFlags, Error>(e),
            Ok(()) => if filename@.len() > 0 && filename@.last() == 0x2f && d.Inode.Type == InodeFileType::Directory {
                Err::<FileFlags, Error>(Error::SysError(SysErr::ENOTDIR))
            } else {
                Ok::<FileFlags, Error>(FileFlags { Read: true, ..FileFlags::none() })
            },
        },
{
    match permission {
        Err(e) => {
            return Err(e);
        },
        Ok(()) => {},
    }
    let len = filename.len();
    let isDir = match d.Inode.Type {
        InodeFileType::Directory => true,
        _ => false,
    };
    // A name that is given as a directory is checked here; directories as
    // such are refused later.
    if len > 0 && filename[len - 1] == 0x2f && isDir {
        return Err(Error::SysError(SysErr::ENOTDIR));
    }
    let mut flags = FileFlags::default();
    flags.Read = true;
    Ok(flags)
}

/// What the loader does with a file that it has opened to run.
#[derive(Clone, Copy, Debug, PartialEq, Eq, Structural)]
pub enum LoadStep {
    /// The file is an ELF image: load it.
    LoadElf,
    /// The file is a script: run its interpreter on it.
    RunInterpreter,
    /// The file cannot be run.
    Fail(i32),
}

/// The first bytes of an ELF image.
pub open spec fn ElfMagic() -> Seq<u8> {
    seq![0x7fu8, 0x45u8, 0x4cu8, 0x46u8]
}

/// The first bytes of a script that names its interpreter: `#!`.
pub open spec fn ScriptMagic() -> Seq<u8> {
    seq![0x23u8, 0x21u8]
}

/// Whether the loader may open one more file, after `attempt` files
/// opened so far: it opens `MAX_LOADER_ATTEMPTS` files at most.
pub fn MayLoad(attempt: usize) -> (r: bool)
    ensures
        r == (attempt < MAX_LOADER_ATTEMPTS),
{
    attempt < MAX_LOADER_ATTEMPTS
}

/// What the loader does on attempt number `attempt`, from 0, with a file
/// of which it has tried to read the first four bytes into `hdr`.
///
/// `ENOEXEC` after `MAX_LOADER_ATTEMPTS` attempts, if the read failed or
/// gave less than four bytes, and for bytes that begin neither an ELF
/// image nor a script.
pub open spec fn NextLoadStep(attempt: usize, read: Result<usize, Error>, hdr: Seq<u8>) -> LoadStep {
    if attempt >= MAX_LOADER_ATTEMPTS || read is Err || read->Ok_0 < 4 {
        LoadStep::Fail(SysErr::ENOEXEC)
    } else if hdr == ElfMagic() {
        LoadStep::LoadElf
    } else if hdr.subrange(0, 2) == ScriptMagic() {
        LoadStep::RunInterpreter
    } else {
        LoadStep::Fail(SysErr::ENOEXEC)
    }
}

/// Decides how to go on with resolving a file name to a program: whoever
/// opens the files asks `MayLoad` before each file, gives up with `ENOEXEC`
/// if it may not, and calls this for each file opened, first with
/// `attempt` 0; it follows a script to its interpreter until an ELF image
/// is found or the loader gives up.
pub fn LoadExecutable(attempt: usize, read: &Result<usize, Error>, hdr: &[u8]) -> (r: LoadStep)
    requires
        hdr@.len() == 4,
    ensures
        r == NextLoadStep(attempt, *read, hdr@),
{
    if attempt >= MAX_LOADER_ATTEMPTS {
        return LoadStep::Fail(SysErr::ENOEXEC);
    }
    match read {
        Err(_) => {
            return LoadStep::Fail(SysErr::ENOEXEC);
        },
        Ok(n) => {
            if *n < 4 {
                return LoadStep::Fail(SysErr::ENOEXEC);
            }
        },
    }
    let elf: [u8; 4] = [0x7f, 0x45, 0x4c, 0x46];
    let script: [u8; 2] = [0x23, 0x21];
    let mut first: Vec<u8> = Vec::new();
    first.push(hdr[0]);
    first.push(hdr[1]);
    proof {
        assert(elf@ =~= ElfMagic());
        assert(script@ =~= ScriptMagic());
        assert(first@ =~= hdr@.subrange(0, 2));
    }
    if SliceCompare(hdr, elf.as_slice()) {
        LoadStep::LoadElf
    } else if SliceCompare(first.as_slice(), script.as_slice()) {
        LoadStep::RunInterpreter
    } else {
        LoadStep::Fail(SysErr::ENOEXEC)
    }
}

/// What loading an ELF image gave.
pub struct LoadedElf {
    /// Where the program begins to run.
    pub entry: u64,
    pub start: u64,
    /// The address just past the image.
    pub end: u64,
    /// The entries that the image adds to the auxiliary vector.
    pub auxv: Vec<AuxEntry>,
}

/// The fixed part of the auxiliary vector of a new program, its end
/// marker first.
pub open spec fn BaseAuxv(platform: u64, execfn: u64, random: u64, vdsoAddr: u64) -> Seq<AuxEntry> {
    seq![
        AuxEntry { Key: AuxVec::AT_NULL, Val: 0 },
        AuxEntry { Key: AuxVec::AT_PLATFORM, Val: platform },
        AuxEntry { Key: AuxVec::AT_EXECFN, Val: execfn },
        AuxEntry { Key: AuxVec::AT_HWCAP2, Val: 0 },
        AuxEntry { Key: AuxVec::AT_RANDOM, Val: random },
        AuxEntry { Key: AuxVec::AT_SECURE, Val: 0 },
        AuxEntry { Key: AuxVec::AT_EGID, Val: 0 },
        AuxEntry { Key: AuxVec::AT_GID, Val: 0 },
        AuxEntry { Key: AuxVec::AT_EUID, Val: 0 },
        AuxEntry { Key: AuxVec::AT_UID, Val: 0 },
        AuxEntry { Key: AuxVec::AT_FLAGS, Val: 0 },
        AuxEntry { Key: AuxVec::AT_CLKTCK, Val: 100 },
        AuxEntry { Key: AuxVec::AT_PAGESZ, Val: 4096 },
        AuxEntry { Key: AuxVec::AT_HWCAP, Val: 0xbfebfbff },
        AuxEntry { Key: AuxVec::AT_SYSINFO_EHDR, Val: vdsoAddr },
    ]
}

/// The stack of a new program below `top`, for its arguments, its
/// environment and an auxiliary vector of 15 fixed entries, those of the
/// image and `extra` more.
pub open spec fn NewStackMap(top: u64, argv: Seq<Vec<u8>>, envv: Seq<Vec<u8>>, elfAux: int, extra: int) -> StackMap {
    StackMap { top: top as int, argv: Texts(argv), envv: Texts(envv), auxc: 15 + elfAux + extra }
}

/// The auxiliary vector of a new program whose stack is `m`: the fixed
/// part, then the entries of the image, then the extra ones.
pub open spec fn FullAuxv(m: StackMap, vdsoAddr: u64, elfAux: Seq<AuxEntry>, extra: Seq<AuxEntry>) -> Seq<AuxEntry> {
    BaseAuxv(m.platform() as u64, m.execfn() as u64, m.random() as u64, vdsoAddr) + elfAux + extra
}

/// Works out the stack of a new program: from `top` down the platform
/// string, 16 random bytes made of `rand1` and `rand2`, the name that the
/// program was run by, and then the environment, the arguments and the
/// auxiliary vector in the standard layout.
pub fn SetupUserStack(
    top: u64,
    loaded: &LoadedElf,
    argv: &Vec<Vec<u8>>,
    envv: &Vec<Vec<u8>>,
    extraAuxv: &Vec<AuxEntry>,
    vdsoAddr: u64,
    rand1: u64,
    rand2: u64,
) -> (r: Result<UserStackPlan, Error>)
    requires
        argv@.len() > 0,
        argv@.len() + envv@.len() + 2 * (15 + loaded.auxv@.len() + extraAuxv@.len()) + 3 <= usize::MAX,
    ensures
        ({
            let m = NewStackMap(top, argv@, envv@, loaded.auxv@.len() as int, extraAuxv@.len() as int);
            match r {
                Ok(plan) => m.fits() && plan.follows(m, FullAuxv(m, vdsoAddr, loaded.auxv@, extraAuxv@), rand1, rand2),
                Err(e) => !m.fits() && e == Error::SysError(SysErr::EFAULT),
            }
        }),
{
    let ghost m = NewStackMap(top, argv@, envv@, loaded.auxv@.len() as int, extraAuxv@.len() as int);
    let first = argv[0].len();
    assert(m.argv[0] == argv@[0]@);
    if top < 23 || (top - 23) <= first as u64 {
        return Err(Error::SysError(SysErr::EFAULT));
    }
    let x86_64 = top - 7;
    let randAddr = x86_64 - 16;
    let execfn = randAddr - (first as u64 + 1);

    let mut auxv: Vec<AuxEntry> = Vec::new();
    auxv.push(AuxEntry { Key: AuxVec::AT_NULL, Val: 0 });
    auxv.push(AuxEntry { Key: AuxVec::AT_PLATFORM, Val: x86_64 });
    auxv.push(AuxEntry { Key: AuxVec::AT_EXECFN, Val: execfn });
    auxv.push(AuxEntry { Key: AuxVec::AT_HWCAP2, Val: 0 });
    auxv.push(AuxEntry { Key: AuxVec::AT_RANDOM, Val: randAddr });
    auxv.push(AuxEntry { Key: AuxVec::AT_SECURE, Val: 0 });
    auxv.push(AuxEntry { Key: AuxVec::AT_EGID, Val: 0 });
    auxv.push(AuxEntry { Key: AuxVec::AT_GID, Val: 0 });
    auxv.push(AuxEntry { Key: AuxVec::AT_EUID, Val: 0 });
    auxv.push(AuxEntry { Key: AuxVec::AT_UID, Val: 0 });
    auxv.push(AuxEntry { Key: AuxVec::AT_FLAGS, Val: 0 });
    auxv.push(AuxEntry { Key: AuxVec::AT_CLKTCK, Val: 100 });
    auxv.push(AuxEntry { Key: AuxVec::AT_PAGESZ, Val: 4096 });
    auxv.push(AuxEntry { Key: AuxVec::AT_HWCAP, Val: 0xbfebfbff });
    auxv.push(AuxEntry { Key: AuxVec::AT_SYSINFO_EHDR, Val: vdsoAddr });
    let ghost base = auxv@;
    assert(base =~= BaseAuxv(x86_64, execfn, randAddr, vdsoAddr));
    let mut i: usize = 0;
    while i < loaded.auxv.len()
        invariant
            i <= loaded.auxv@.len(),
            auxv@ == base + loaded.auxv@.subrange(0, i as int),
        decreases loaded.auxv@.len() - i,
    {
        auxv.push(loaded.auxv[i]);
        proof {
            assert(auxv@ =~= base + loaded.auxv@.subrange(0, i as int + 1));
        }
        i = i + 1;
    }
    assert(loaded.auxv@.subrange(0, loaded.auxv@.len() as int) =~= loaded.auxv@);
    let mut j: usize = 0;
    while j < extraAuxv.len()
        invariant
            j <= extraAuxv@.len(),
            auxv@ == base + loaded.auxv@ + extraAuxv@.subrange(0, j as int),
        decreases extraAuxv@.len() - j,
    {
        auxv.push(extraAuxv[j]);
        proof {
            assert(auxv@ =~= base + loaded.auxv@ + extraAuxv@.subrange(0, j as int + 1));
        }
        j = j + 1;
    }
    assert(extraAuxv@.subrange(0, extraAuxv@.len() as int) =~= extraAuxv@);
    assert(auxv@ =~= FullAuxv(m, vdsoAddr, loaded.auxv@, extraAuxv@));
    PlanStack(top, argv, envv, &auxv, rand1, rand2)
}

/// Where the last part of a path begins: after its last `/`.
pub open spec fn BaseStart(path: Seq<u8>, upto: int) -> int
    decreases upto,
{
    if upto <= 0 {
        0
    } else if path[upto - 1] == 0x2f {
        upto
    } else {
        BaseStart(path, upto - 1)
    }
}

/// The name of the thread that runs the file `filename`: the last part of
/// the path, cut to 15 bytes.
pub open spec fn CommName(filename: Seq<u8>) -> Seq<u8> {
    let start = BaseStart(filename, filename.len() as int);
    if filename.len() - start > TASK_COMM_LEN - 1 {
        filename.subrange(start, start + TASK_COMM_LEN - 1)
    } else {
        filename.subrange(start, filename.len() as int)
    }
}

/// The last part of `path`, after its last `/`, cut to 15 bytes.
pub fn ThreadName(path: &[u8]) -> (r: Vec<u8>)
    ensures
        r@ == CommName(path@),
{
    let mut start: usize = path.len();
    while start > 0 && path[start - 1] != 0x2f
        invariant
            start <= path@.len(),
            BaseStart(path@, start as int) == BaseStart(path@, path@.len() as int),
        decreases start,
    {
        start = start - 1;
    }
    let mut end = path.len();
    if end - start > TASK_COMM_LEN - 1 {
        end = start + (TASK_COMM_LEN - 1);
    }
    let mut out: Vec<u8> = Vec::new();
    let mut k: usize = start;
    while k < end
        invariant
            start <= k <= end,
            end <= path@.len(),
            out@ == path@.subrange(start as int, k as int),
        decreases end - k,
    {
        out.push(path[k]);
        proof {
            assert(out@ =~= path@.subrange(start as int, k as int + 1));
        }
        k = k + 1;
    }
    out
}

/// What `Load` hands back: where the program begins to run, its stack
/// pointer, the stack pointer of the task in the kernel, the name of the
/// thread, and what to write to the stack of the program.
pub struct Loaded {
    pub entry: u64,
    pub usersp: u64,
    pub kernelsp: u64,
    pub name: Vec<u8>,
    pub stack: UserStackPlan,
}

/// The address just past `addr` that begins a page; `addr` itself if it
/// begins one.
pub open spec fn RoundUp(addr: u64) -> int {
    if addr % 4096 == 0 {
        addr as int
    } else {
        addr - addr % 4096 + 4096
    }
}

/// Lays out the address space of a task for the program `loaded`, the
/// image that was found for `filename` in the file `executable`: maps the
/// vDSO, puts the heap behind the image, maps the stack and works out what
/// goes on it. `taskAddr` is where the task's own memory in the kernel
/// begins.
///
/// The errors are those of the steps, in this order: `ENOMEM` without room
/// for the vDSO, `EINVAL` for an image that ends past the last page, and
/// `EFAULT` for a stack that does not fit.
#[verifier::rlimit(50)]
pub fn Load(
    mm: &mut MemoryManager,
    loaded: &LoadedElf,
    executable: &Dirent,
    filename: &[u8],
    argv: &Vec<Vec<u8>>,
    envv: &Vec<Vec<u8>>,
    extraAuxv: &Vec<AuxEntry>,
    vdsoParamPageAddr: u64,
    rand: (u64, u64),
    taskAddr: u64,
) -> (r: Result<Loaded, Error>)
    requires
        old(mm)@.wf(),
        vdsoParamPageAddr <= u64::MAX - PAGE_SIZE,
        taskAddr <= u64::MAX - DEFAULT_STACK_SIZE,
        argv@.len() > 0,
        argv@.len() + envv@.len() + 2 * (15 + loaded.auxv@.len() + extraAuxv@.len()) + 3 <= usize::MAX,
    ensures
        final(mm)@.wf(),
        match VdsoBase(old(mm)@.vmas) {
            None => r matches Err(e) && e == Error::SysError(ENOMEM) && final(mm)@ == old(mm)@,
            Some(base) => {
                let vdso = (base + PAGE_SIZE) as u64;
                let withVdso = old(mm)@.vmas.push(VvarOpts(base, vdsoParamPageAddr)).push(
                    VdsoOpts(vdso, (vdsoParamPageAddr + PAGE_SIZE) as u64),
                );
                let m = NewStackMap(MAX_USER_ADDR, argv@, envv@, loaded.auxv@.len() as int, extraAuxv@.len() as int);
                if RoundUp(loaded.end) > u64::MAX {
                    &&& r matches Err(e) && e == Error::SysError(SysErr::EINVAL)
                    &&& final(mm)@ == (MemoryView { vmas: withVdso, ..old(mm)@ })
                } else {
                    &&& final(mm)@ == (MemoryView {
                        vmas: withVdso.push(StackOpts(MAX_USER_ADDR)),
                        brk: RoundUp(loaded.end) as u64,
                        executable: Some(*executable),
                    })
                    &&& match r {
                        Ok(l) => {
                            &&& m.fits()
                            &&& l.entry == loaded.entry
                            &&& l.usersp == l.stack.sp
                            &&& l.kernelsp == taskAddr + DEFAULT_STACK_SIZE - 0x10
                            &&& l.name@ == CommName(filename@)
                            &&& l.stack.follows(m, FullAuxv(m, vdso, loaded.auxv@, extraAuxv@), rand.0, rand.1)
                        },
                        Err(e) => !m.fits() && e == Error::SysError(SysErr::EFAULT),
                    }
                }
            },
        },
{
    let vdsoAddr = LoadVDSO(mm, vdsoParamPageAddr)?;
    let rem = loaded.end % PAGE_SIZE;
    let e = if rem == 0 {
        loaded.end
    } else {
        if loaded.end - rem > u64::MAX - PAGE_SIZE {
            return Err(Error::SysError(SysErr::EINVAL));
        }
        loaded.end - rem + PAGE_SIZE
    };
    mm.BrkSetup(e);
    mm.SetExecutable(executable);
    let name = ThreadName(filename);
    let stackRange = CreateStack(mm)?;
    let top = stackRange.End();
    let stack = SetupUserStack(top, loaded, argv, envv, extraAuxv, vdsoAddr, rand.0, rand.1)?;
    let usersp = stack.sp;
    let kernelsp = taskAddr + DEFAULT_STACK_SIZE - 0x10;
    Ok(Loaded { entry: loaded.entry, usersp, kernelsp, name, stack })
}

} // verus!
