//! File handles and the operations behind them.

use vstd::prelude::*;
use crate::fs::attr::DentrySerializer;
use crate::fs::attr::DirCtx;
use crate::fs::attr::Dirent;
use crate::fs::attr::HostInodeOp;
use crate::fs::attr::InodeFileType;
use crate::fs::attr::UnstableAttr;
use crate::fs::flags::FileFlags;
use crate::fs::flags::SettableFileFlags;
use crate::fs::host::tty::TTYFileOps;
use crate::fs::host::util::S_IFMT;
use crate::fs::host::util::S_IFSOCK;
use crate::fs::lock::LockCtx;
use crate::fs::lock::NotOf;
use crate::kernel::fasync::ASYNC_EVENTS;
use crate::kernel::fasync::FileAsync;
use crate::kernel::waiter::WaitEntry;
use crate::qlib::metric::NewU64Metric;
use crate::qlib::metric::U64Metric;
use crate::qlib::common::Error;
use crate::qlib::common::SysErr;
use crate::qlib::linux_def::EventMask;
use crate::task::Task;
use crate::task::TaskView;

verus! {

/// How a splice moves data.
#[derive(Clone, Copy, Debug, PartialEq, Eq, Structural)]
pub struct SpliceOpts {
    /// Bytes to move.
    pub Length: i64,
    /// The source is read at `SrcStart`, not at its own offset. Set for
    /// every source but a pipe or a socket, which gives up what is read.
    pub SrcOffset: bool,
    pub SrcStart: i64,
    /// The source keeps what is read from it.
    pub Dup: bool,
    /// The destination is written at `DstStart`, not at its own offset.
    pub DstOffset: bool,
    pub DstStart: i64,
}

impl Default for SpliceOpts {
    fn default() -> (r: SpliceOpts)
        ensures
            r == (SpliceOpts { Length: 0, SrcOffset: false, SrcStart: 0, Dup: false, DstOffset: false, DstStart: 0 }),
    {
        SpliceOpts { Length: 0, SrcOffset: false, SrcStart: 0, Dup: false, DstOffset: false, DstStart: 0 }
    }
}

/// The greatest offset in a file.
pub const FILE_MAX_OFFSET: i64 = 0x7fff_ffff_ffff_ffff;

/// How much an `fsync` writes back.
#[derive(Clone, Copy, Debug, PartialEq, Eq, Structural)]
pub enum SyncType {
    /// Data and metadata.
    SyncAll,
    /// Data, and the metadata needed to read it.
    SyncData,
    /// What the backing storage holds of the file.
    SyncBackingStorage,
}

/// Names the implementation behind a `FileOperations` value.
#[derive(Clone, Copy, Debug, PartialEq, Eq, Structural)]
pub enum FileOpsType {
    OverlayFileOperations,
    MockFileOperations,
    TimerOperations,
    FullFileOperations,
    NullFileOperations,
    RandomFileOperations,
    TTYFileOperations,
    ZeroFileOperations,
    FileOptionsUtil,
    NoReadWriteFile,
    StaticDirFileOperations,
    StaticFile,
    HostFileOp,
    TTYFileOps,
    RootProcFile,
    SeqFileOperations,
    DirFileOperation,
    SocketFileOps,
    SymlinkFileOperations,
    DirFileOperations,
    MasterFileOperations,
    SlaveFileOperations,
    EventOperations,
    EventPoll,
    Reader,
    ReaderWriter,
    Writer,
    SocketOperations,
    UnixSocketOperations,
    ReadonlyFileOperations,
    DynamicDirFileOperations,
    SignalOperation,
}

/// What `ENOTSOCK` looks like as a result.
pub open spec fn NotSock<T>() -> Result<T, Error> {
    Err(Error::SysError(SysErr::ENOTSOCK))
}

/// The socket calls of a file. A file that is no socket answers each with
/// `ENOTSOCK`, and has no timeouts.
pub trait SockOperations: Sized {
    fn Connect(&mut self, _task: &Task, _socketaddr: &[u8], _blocking: bool) -> (r: Result<i64, Error>)
        default_ensures
            r == NotSock::<i64>(),
    {
        Err(Error::SysError(SysErr::ENOTSOCK))
    }

    fn Accept(&mut self, _task: &Task, _addr: &mut Vec<u8>, _flags: i32, _blocking: bool) -> (r: Result<i64, Error>)
        default_ensures
            r == NotSock::<i64>(),
    {
        Err(Error::SysError(SysErr::ENOTSOCK))
    }

    fn Bind(&mut self, _task: &Task, _sockaddr: &[u8]) -> (r: Result<i64, Error>)
        default_ensures
            r == NotSock::<i64>(),
    {
        Err(Error::SysError(SysErr::ENOTSOCK))
    }

    fn Listen(&mut self, _task: &Task, _backlog: i32) -> (r: Result<i64, Error>)
        default_ensures
            r == NotSock::<i64>(),
    {
        Err(Error::SysError(SysErr::ENOTSOCK))
    }

    fn Shutdown(&mut self, _task: &Task, _how: i32) -> (r: Result<i64, Error>)
        default_ensures
            r == NotSock::<i64>(),
    {
        Err(Error::SysError(SysErr::ENOTSOCK))
    }

    fn GetSockOpt(&mut self, _task: &Task, _level: i32, _name: i32, _addr: &mut Vec<u8>) -> (r: Result<i64, Error>)
        default_ensures
            r == NotSock::<i64>(),
    {
        Err(Error::SysError(SysErr::ENOTSOCK))
    }

    fn SetSockOpt(&mut self, _task: &Task, _level: i32, _name: i32, _opt: &[u8]) -> (r: Result<i64, Error>)
        default_ensures
            r == NotSock::<i64>(),
    {
        Err(Error::SysError(SysErr::ENOTSOCK))
    }

    fn GetSockName(&mut self, _task: &Task, _socketaddr: &mut Vec<u8>) -> (r: Result<i64, Error>)
        default_ensures
            r == NotSock::<i64>(),
    {
        Err(Error::SysError(SysErr::ENOTSOCK))
    }

    fn GetPeerName(&mut self, _task: &Task, _socketaddr: &mut Vec<u8>) -> (r: Result<i64, Error>)
        default_ensures
            r == NotSock::<i64>(),
    {
        Err(Error::SysError(SysErr::ENOTSOCK))
    }

    fn RecvMsg(&mut self, _task: &Task, _dst: &mut Vec<u8>, _flags: i32, _deadline: Option<i64>) -> (r: Result<
        i64,
        Error,
    >)
        default_ensures
            r == NotSock::<i64>(),
    {
        Err(Error::SysError(SysErr::ENOTSOCK))
    }

    fn SendMsg(&mut self, _task: &Task, _src: &[u8], _flags: i32, _deadline: Option<i64>) -> (r: Result<i64, Error>)
        default_ensures
            r == NotSock::<i64>(),
    {
        Err(Error::SysError(SysErr::ENOTSOCK))
    }

    fn SetRecvTimeout(&mut self, _nanoseconds: i64)
        default_ensures
            *final(self) == *old(self),
    {
    }

    fn RecvTimeout(&self) -> (r: i64)
        default_ensures
            r == 0,
    {
        0
    }

    fn SetSendTimeout(&mut self, _nanoseconds: i64)
        default_ensures
            *final(self) == *old(self),
    {
    }

    fn SendTimeout(&self) -> (r: i64)
        default_ensures
            r == 0,
    {
        0
    }
}

/// What a splice between two files returns where the file has no splice
/// of its own: `EINVAL` if an end that is to be used at a given offset
/// cannot seek, else `ENOSYS`.
pub open spec fn SpliceDefault(opts: SpliceOpts, srcSeekable: bool, dstSeekable: bool) -> Result<i64, Error> {
    if (opts.SrcOffset && !srcSeekable) || (opts.DstOffset && !dstSeekable) {
        Err(Error::SysError(SysErr::EINVAL))
    } else {
        Err(Error::SysError(SysErr::ENOSYS))
    }
}

/// Moving data between two files without a copy through user memory.
pub trait SpliceOperations {
    /// Writes from this file, the source, to `dst`. `fileSeekable` and
    /// `dstSeekable` say whether the two files can seek.
    fn WriteTo(&mut self, _task: &Task, fileSeekable: bool, dstSeekable: bool, opts: &SpliceOpts) -> (r: Result<
        i64,
        Error,
    >)
        default_ensures
            r == SpliceDefault(*opts, fileSeekable, dstSeekable),
    {
        if opts.SrcOffset && !fileSeekable {
            return Err(Error::SysError(SysErr::EINVAL));
        }
        if opts.DstOffset && !dstSeekable {
            return Err(Error::SysError(SysErr::EINVAL));
        }
        Err(Error::SysError(SysErr::ENOSYS))
    }

    /// Reads from `src` into this file, the destination.
    fn ReadFrom(&mut self, _task: &Task, fileSeekable: bool, srcSeekable: bool, opts: &SpliceOpts) -> (r: Result<
        i64,
        Error,
    >)
        default_ensures
            r == SpliceDefault(*opts, srcSeekable, fileSeekable),
    {
        if opts.DstOffset && !fileSeekable {
            return Err(Error::SysError(SysErr::EINVAL));
        }
        if opts.SrcOffset && !srcSeekable {
            return Err(Error::SysError(SysErr::EINVAL));
        }
        Err(Error::SysError(SysErr::ENOSYS))
    }
}


/// Something whose readiness waiters can watch.
pub trait Waitable {
    /// The events of `mask` that are ready now.
    spec fn readiness(&self, mask: EventMask) -> EventMask;

    /// Whether `after` is this event source once waiter `e` has asked it
    /// for `mask`.
    spec fn registered(&self, after: &Self, e: WaitEntry, mask: EventMask) -> bool;

    /// Whether `after` is this event source once waiter `e` has left it.
    spec fn unregistered(&self, after: &Self, e: WaitEntry) -> bool;

    fn Readiness(&self, task: &Task, mask: EventMask) -> (r: EventMask)
        ensures
            r == self.readiness(mask),
    ;

    fn EventRegister(&mut self, task: &Task, e: &WaitEntry, mask: EventMask)
        ensures
            old(self).registered(final(self), *e, mask),
    ;

    fn EventUnregister(&mut self, task: &Task, e: &WaitEntry)
        ensures
            old(self).unregistered(final(self), *e),
    ;
}

/// What stands behind an open file: the operations of one kind of file.
///
/// Each operation has a spec function that says which outcomes it may
/// have; an implementation states there what it does. The kind of the
/// operations and whether they can seek never change.
pub trait FileOperations: Waitable + SockOperations + SpliceOperations {
    /// What the operations need to hold of their own state, and keep.
    spec fn wf(&self) -> bool;

    /// Whether the file has an offset that reads and writes move.
    spec fn seekable(&self) -> bool;

    /// The implementation behind the operations.
    spec fn kind(&self) -> FileOpsType;

    /// The outcomes of `Seek`.
    spec fn seekPost(&self, after: &Self, d: Dirent, whence: i32, current: i64, offset: i64, r: Result<i64, Error>) -> bool;

    /// The outcomes of `ReadDir`.
    spec fn readDirPost(&self, after: &Self, d: Dirent, offset: i64, r: Result<i64, Error>) -> bool;

    /// The outcomes of `ReadAt`: `dst` is the buffer before, `filled` the
    /// buffer after.
    spec fn readAtPost(
        &self,
        after: &Self,
        d: Dirent,
        dst: Seq<u8>,
        filled: Seq<u8>,
        offset: i64,
        blocking: bool,
        r: Result<i64, Error>,
    ) -> bool;

    /// The outcomes of `WriteAt`.
    spec fn writeAtPost(&self, after: &Self, d: Dirent, src: Seq<u8>, offset: i64, blocking: bool, r: Result<i64, Error>) -> bool;

    /// The outcomes of `Append`.
    spec fn appendPost(&self, after: &Self, d: Dirent, src: Seq<u8>, r: Result<(i64, i64), Error>) -> bool;

    /// The outcomes of `Fsync`.
    spec fn fsyncPost(&self, after: &Self, d: Dirent, start: i64, end: i64, syncType: SyncType, r: Result<(), Error>) -> bool;

    /// The outcomes of `Flush`.
    spec fn flushPost(&self, after: &Self, d: Dirent, r: Result<(), Error>) -> bool;

    /// The outcomes of `UnstableAttr`.
    spec fn unstableAttrPost(&self, d: Dirent, r: Result<UnstableAttr, Error>) -> bool;

    /// The outcomes of `Ioctl`: `task` is the caller before, `done` after.
    spec fn ioctlPost(
        &self,
        after: &Self,
        task: TaskView,
        done: TaskView,
        fd: i32,
        request: u64,
        val: u64,
        r: Result<(), Error>,
    ) -> bool;

    /// The outcomes of `IterateDir`.
    spec fn iterateDirPost(&self, after: &Self, d: Dirent, offset: i32, r: (i32, Result<i64, Error>)) -> bool;

    /// The outcomes of `Mappable`.
    spec fn mappablePost(&self, r: Result<HostInodeOp, Error>) -> bool;

    fn FopsType(&self) -> (r: FileOpsType)
        ensures
            r == self.kind(),
    ;

    fn Seekable(&self) -> (r: bool)
        ensures
            r == self.seekable(),
    ;

    /// Computes the offset that a seek from `current` leads to.
    fn Seek(&mut self, task: &Task, d: &Dirent, whence: i32, current: i64, offset: i64) -> (r: Result<i64, Error>)
        requires
            old(self).wf(),
        ensures
            final(self).wf(),
            final(self).seekable() == old(self).seekable(),
            final(self).kind() == old(self).kind(),
            old(self).seekPost(final(self), *d, whence, current, offset, r),
    ;

    /// Writes directory entries from `offset` on to `serializer` and
    /// returns the offset to go on from.
    fn ReadDir(&mut self, task: &Task, d: &Dirent, offset: i64, serializer: &mut DentrySerializer) -> (r: Result<
        i64,
        Error,
    >)
        requires
            old(self).wf(),
        ensures
            final(self).wf(),
            final(self).seekable() == old(self).seekable(),
            final(self).kind() == old(self).kind(),
            old(self).readDirPost(final(self), *d, offset, r),
    ;

    /// Reads into `dst`, from its start, what stands at `offset`, and
    /// returns the number of bytes read: never more than `dst` takes.
    fn ReadAt(&mut self, task: &Task, d: &Dirent, dst: &mut Vec<u8>, offset: i64, blocking: bool) -> (r: Result<
        i64,
        Error,
    >)
        requires
            old(self).wf(),
        ensures
            final(self).wf(),
            final(self).seekable() == old(self).seekable(),
            final(self).kind() == old(self).kind(),
            final(dst)@.len() == old(dst)@.len(),
            r matches Ok(n) ==> n <= old(dst)@.len(),
            old(self).readAtPost(final(self), *d, old(dst)@, final(dst)@, offset, blocking, r),
    ;

    /// Writes `src` at `offset` and returns the number of bytes written:
    /// never more than `src` holds.
    fn WriteAt(&mut self, task: &Task, d: &Dirent, src: &[u8], offset: i64, blocking: bool) -> (r: Result<i64, Error>)
        requires
            old(self).wf(),
        ensures
            final(self).wf(),
            final(self).seekable() == old(self).seekable(),
            final(self).kind() == old(self).kind(),
            r matches Ok(n) ==> n <= src@.len(),
            old(self).writeAtPost(final(self), *d, src@, offset, blocking, r),
    ;

    /// Appends `src` to a seekable file in one step, and returns the
    /// number of bytes written and the length of the file afterwards.
    fn Append(&mut self, task: &Task, d: &Dirent, src: &[u8]) -> (r: Result<(i64, i64), Error>)
        requires
            old(self).wf(),
        ensures
            final(self).wf(),
            final(self).seekable() == old(self).seekable(),
            final(self).kind() == old(self).kind(),
            old(self).appendPost(final(self), *d, src@, r),
    ;

    fn Fsync(&mut self, task: &Task, d: &Dirent, start: i64, end: i64, syncType: SyncType) -> (r: Result<(), Error>)
        requires
            old(self).wf(),
        ensures
            final(self).wf(),
            final(self).seekable() == old(self).seekable(),
            final(self).kind() == old(self).kind(),
            old(self).fsyncPost(final(self), *d, start, end, syncType, r),
    ;

    fn Flush(&mut self, task: &Task, d: &Dirent) -> (r: Result<(), Error>)
        requires
            old(self).wf(),
        ensures
            final(self).wf(),
            final(self).seekable() == old(self).seekable(),
            final(self).kind() == old(self).kind(),
            old(self).flushPost(final(self), *d, r),
    ;

    fn UnstableAttr(&self, task: &Task, d: &Dirent) -> (r: Result<UnstableAttr, Error>)
        requires
            self.wf(),
        ensures
            self.unstableAttrPost(*d, r),
    ;

    /// Carries out the device request `request` with argument `val`, which
    /// may be an address in the memory of `task`.
    fn Ioctl(&mut self, task: &mut Task, fd: i32, request: u64, val: u64) -> (r: Result<(), Error>)
        requires
            old(self).wf(),
        ensures
            final(self).wf(),
            final(self).seekable() == old(self).seekable(),
            final(self).kind() == old(self).kind(),
            old(self).ioctlPost(final(self), old(task)@, final(task)@, fd, request, val, r),
    ;

    fn IterateDir(&mut self, task: &Task, d: &Dirent, dirCtx: &mut DirCtx, offset: i32) -> (r: (i32, Result<i64, Error>))
        requires
            old(self).wf(),
        ensures
            final(self).wf(),
            final(self).seekable() == old(self).seekable(),
            final(self).kind() == old(self).kind(),
            old(self).iterateDirPost(final(self), *d, offset, r),
    ;

    fn Mappable(&self) -> (r: Result<HostInodeOp, Error>)
        requires
            self.wf(),
        ensures
            self.mappablePost(r),
    ;
}


/// The name of the counter of file reads.
pub const READS_METRIC: &'static str = "/fs/reads";

/// What the counter of file reads counts.
pub const READS_DESCRIPTION: &'static str = "Number of file reads.";

/// Makes the counter of file reads, which `Readv` counts in: it is shown
/// as `/fs/reads`, is not read in step with other counters, and starts
/// at 0. It is made once, when the kernel comes up.
pub fn InitSingleton() -> (r: U64Metric)
    ensures
        r.name@ == READS_METRIC@,
        !r.sync,
        r.description@ == READS_DESCRIPTION@,
        r.value == 0,
{
    NewU64Metric(READS_METRIC, false, READS_DESCRIPTION)
}

/// Hands out the ids of files, each greater than the last.
pub struct UniqueIdSource {
    /// The id that the next file gets.
    pub next: u64,
}

impl UniqueIdSource {
    /// A source whose first id is 1.
    pub fn New() -> (r: UniqueIdSource)
        ensures
            r.next == 1,
    {
        UniqueIdSource { next: 1 }
    }

    /// A new id.
    pub fn NewUID(&mut self) -> (r: u64)
        requires
            old(self).next < u64::MAX,
        ensures
            r == old(self).next,
            final(self).next == old(self).next + 1,
    {
        let r = self.next;
        self.next = self.next + 1;
        r
    }
}

/// What a file handle points to.
pub struct FileInternal<F: FileOperations> {
    /// Names the file; files are ordered and told apart by it.
    pub UniqueId: u64,
    pub Dirent: Dirent,
    pub flags: FileFlags,
    /// The owner to signal in async mode, once one is set.
    pub asyncOwner: Option<FileAsync>,
    /// Where the next read or write without a position takes place.
    pub offset: i64,
    pub FileOp: F,
    /// The greatest size that a write may give a regular file
    /// (`RLIMIT_FSIZE`).
    pub fileSizeLimit: u64,
    /// How many holders the handle has.
    pub refs: usize,
}

/// A handle to an open file.
pub struct File<F: FileOperations>(pub FileInternal<F>);

/// What the limit check says of a write at `offset` to a regular file
/// whose size is limited to `limit`: the number of bytes that may still be
/// written, 0 if none, and whether the write is limited at all. A limit
/// above the greatest offset limits nothing.
pub open spec fn LimitAt(regular: bool, limit: u64, offset: i64) -> (i64, bool) {
    if !regular || limit > i64::MAX {
        (0, false)
    } else if limit - offset <= 0 {
        (0, true)
    } else if limit - offset > i64::MAX {
        (i64::MAX, true)
    } else {
        ((limit - offset) as i64, true)
    }
}

/// The offset after `n` bytes were moved at `offset`: advanced by `n` if
/// `n` is positive.
pub open spec fn Advanced(offset: i64, n: i64) -> int {
    if n > 0 {
        offset + n
    } else {
        offset as int
    }
}

/// The owner of a file after `Async(newAsync)`: the one it had, else the
/// new one.
pub open spec fn OwnerAfter(owner: Option<FileAsync>, newAsync: Option<FileAsync>) -> Option<FileAsync> {
    if owner is None {
        newAsync
    } else {
        owner
    }
}

/// Whether `Async(newAsync)` registers the new owner with the file's
/// event source: the file had no owner, gets one, and is in async mode.
pub open spec fn AsyncRegisters(owner: Option<FileAsync>, newAsync: Option<FileAsync>, flags: FileFlags) -> bool {
    owner is None && newAsync is Some && flags.Async
}

/// Whether `SetFlags(newFlags)` registers the owner: there is one, and
/// async mode is switched on.
pub open spec fn SetFlagsRegisters(owner: Option<FileAsync>, flags: FileFlags, newFlags: SettableFileFlags) -> bool {
    owner is Some && newFlags.Async && !flags.Async
}

/// Whether `SetFlags(newFlags)` unregisters the owner: there is one, and
/// async mode is switched off.
pub open spec fn SetFlagsUnregisters(owner: Option<FileAsync>, flags: FileFlags, newFlags: SettableFileFlags) -> bool {
    owner is Some && !newFlags.Async && flags.Async
}

/// Setting the same flags a second time changes no flag and neither
/// registers nor unregisters the owner.
pub proof fn lemma_set_flags_twice(owner: Option<FileAsync>, flags: FileFlags, a: SettableFileFlags)
    ensures
        flags.with(a).with(a) == flags.with(a),
        !SetFlagsRegisters(owner, flags.with(a), a),
        !SetFlagsUnregisters(owner, flags.with(a), a),
{
}

/// A second `Async` with a new owner returns the owner that the first one
/// installed or found, and does not register again.
pub proof fn lemma_async_twice(owner: Option<FileAsync>, x: FileAsync, y: FileAsync, flags: FileFlags)
    ensures
        OwnerAfter(OwnerAfter(owner, Some(x)), Some(y)) == OwnerAfter(owner, Some(x)),
        OwnerAfter(owner, Some(x)) is Some,
        !AsyncRegisters(OwnerAfter(owner, Some(x)), Some(y), flags),
{
}

impl<F: FileOperations> File<F> {
    /// The operations are well formed and the handle has a holder.
    pub open spec fn wf(&self) -> bool {
        self.0.FileOp.wf() && self.0.refs >= 1
    }

    /// Whether `after` is this file with the operations and the buffers of
    /// its operations set aside: same id, directory entry, flags, owner,
    /// limit and holders.
    pub open spec fn sameHandle(&self, after: &Self) -> bool {
        &&& after.0.UniqueId == self.0.UniqueId
        &&& after.0.Dirent == self.0.Dirent
        &&& after.0.flags == self.0.flags
        &&& after.0.asyncOwner == self.0.asyncOwner
        &&& after.0.fileSizeLimit == self.0.fileSizeLimit
        &&& after.0.refs == self.0.refs
        &&& after.0.FileOp.seekable() == self.0.FileOp.seekable()
        &&& after.0.FileOp.kind() == self.0.FileOp.kind()
    }

    /// Whether operations on the file wait.
    pub open spec fn blocking(&self) -> bool {
        !self.0.flags.NonBlocking
    }

    /// A handle with one holder to a new file with operations `fops`, at
    /// offset 0 and without an owner.
    pub fn New(uids: &mut UniqueIdSource, dirent: &Dirent, flags: &FileFlags, fops: F) -> (r: Self)
        requires
            old(uids).next < u64::MAX,
            fops.wf(),
        ensures
            r.0.UniqueId == old(uids).next,
            final(uids).next == old(uids).next + 1,
            r.0.Dirent == *dirent,
            r.0.flags == *flags,
            r.0.asyncOwner is None,
            r.0.offset == 0,
            r.0.FileOp == fops,
            r.0.fileSizeLimit == u64::MAX,
            r.0.refs == 1,
            r.wf(),
    {
        File(
            FileInternal {
                UniqueId: uids.NewUID(),
                Dirent: *dirent,
                flags: *flags,
                asyncOwner: None,
                offset: 0,
                FileOp: fops,
                fileSizeLimit: u64::MAX,
                refs: 1,
            },
        )
    }

    /// A handle to a file that a host file backs. A file on which reads
    /// and writes never have to wait can also be read and written at a
    /// position.
    pub fn NewHostFile(uids: &mut UniqueIdSource, dirent: &Dirent, flags: &FileFlags, fops: F, wouldBlock: bool) -> (r: Self)
        requires
            old(uids).next < u64::MAX,
            fops.wf(),
        ensures
            r.0.UniqueId == old(uids).next,
            final(uids).next == old(uids).next + 1,
            r.0.Dirent == *dirent,
            r.0.flags == if wouldBlock {
                *flags
            } else {
                FileFlags { Pread: true, PWrite: true, ..*flags }
            },
            r.0.asyncOwner is None,
            r.0.offset == 0,
            r.0.FileOp == fops,
            r.0.refs == 1,
            r.wf(),
    {
        let mut flags = *flags;
        if !wouldBlock {
            flags.Pread = true;
            flags.PWrite = true;
        }
        File(
            FileInternal {
                UniqueId: uids.NewUID(),
                Dirent: *dirent,
                flags,
                asyncOwner: None,
                offset: 0,
                FileOp: fops,
                fileSizeLimit: u64::MAX,
                refs: 1,
            },
        )
    }

    /// Whether reads and writes on the file may have to wait.
    pub fn WouldBlock(&self) -> (r: bool)
        ensures
            r == self.0.Dirent.Inode.WouldBlock,
    {
        self.0.Dirent.Inode.WouldBlock
    }

    /// The kind of the inode behind the file.
    pub fn FileType(&self) -> (r: InodeFileType)
        ensures
            r == self.0.Dirent.Inode.Type,
    {
        self.0.Dirent.Inode.Type
    }

    /// Whether operations on the file wait.
    pub fn Blocking(&self) -> (r: bool)
        ensures
            r == self.blocking(),
    {
        !self.0.flags.NonBlocking
    }

    /// The host file to map, if the file can be mapped.
    pub fn Mappable(&self) -> (r: Result<HostInodeOp, Error>)
        requires
            self.wf(),
        ensures
            self.0.FileOp.mappablePost(r),
    {
        self.0.FileOp.Mappable()
    }

    /// The async owner of the file. If it has none and `newAsync` is given,
    /// `newAsync` becomes the owner first, and is registered with the
    /// file's event source if the file is in async mode.
    pub fn Async(&mut self, task: &Task, newAsync: Option<FileAsync>) -> (r: Option<FileAsync>)
        ensures
            r == OwnerAfter(old(self).0.asyncOwner, newAsync),
            final(self).0.asyncOwner == r,
            final(self).0.UniqueId == old(self).0.UniqueId,
            final(self).0.Dirent == old(self).0.Dirent,
            final(self).0.flags == old(self).0.flags,
            final(self).0.offset == old(self).0.offset,
            final(self).0.fileSizeLimit == old(self).0.fileSizeLimit,
            final(self).0.refs == old(self).0.refs,
            AsyncRegisters(old(self).0.asyncOwner, newAsync, old(self).0.flags) ==> old(self).0.FileOp.registered(
                &final(self).0.FileOp,
                newAsync->0.e,
                ASYNC_EVENTS,
            ),
            !AsyncRegisters(old(self).0.asyncOwner, newAsync, old(self).0.flags) ==> final(self).0.FileOp == old(self).0.FileOp,
    {
        if self.0.asyncOwner.is_none() {
            match newAsync {
                Some(a) => {
                    self.0.asyncOwner = Some(a);
                    if self.0.flags.Async {
                        self.0.FileOp.EventRegister(task, &a.e, ASYNC_EVENTS);
                    }
                },
                None => {},
            }
        }
        self.0.asyncOwner
    }

    /// The id of the file.
    pub fn UniqueId(&self) -> (r: u64)
        ensures
            r == self.0.UniqueId,
    {
        self.0.UniqueId
    }

    /// The flags of the file.
    pub fn Flags(&self) -> (r: FileFlags)
        ensures
            r == self.0.flags,
    {
        self.0.flags
    }

    /// Sets the four flags that can be set on an open file. Switching
    /// async mode on registers the owner with the file's event source, and
    /// switching it off unregisters the owner; without an owner neither
    /// happens.
    #[verifier::rlimit(50)]
    pub fn SetFlags(&mut self, task: &Task, newFlags: SettableFileFlags)
        ensures
            final(self).0.flags == old(self).0.flags.with(newFlags),
            final(self).0.asyncOwner == old(self).0.asyncOwner,
            final(self).0.UniqueId == old(self).0.UniqueId,
            final(self).0.Dirent == old(self).0.Dirent,
            final(self).0.offset == old(self).0.offset,
            final(self).0.fileSizeLimit == old(self).0.fileSizeLimit,
            final(self).0.refs == old(self).0.refs,
            SetFlagsRegisters(old(self).0.asyncOwner, old(self).0.flags, newFlags) ==> old(self).0.FileOp.registered(
                &final(self).0.FileOp,
                old(self).0.asyncOwner->0.e,
                ASYNC_EVENTS,
            ),
            SetFlagsUnregisters(old(self).0.asyncOwner, old(self).0.flags, newFlags) ==> old(self).0.FileOp.unregistered(&final(self).0.FileOp, old(self).0.asyncOwner->0.e),
            !SetFlagsRegisters(old(self).0.asyncOwner, old(self).0.flags, newFlags) && !SetFlagsUnregisters(
                old(self).0.asyncOwner,
                old(self).0.flags,
                newFlags,
            ) ==> final(self).0.FileOp == old(self).0.FileOp,
    {
        let was = self.0.flags.Async;
        let mut flags = self.0.flags;
        flags.Direct = newFlags.Direct;
        flags.NonBlocking = newFlags.NonBlocking;
        flags.Append = newFlags.Append;
        flags.Async = newFlags.Async;
        self.0.flags = flags;
        match self.0.asyncOwner {
            None => {},
            Some(a) => {
                if newFlags.Async && !was {
                    self.0.FileOp.EventRegister(task, &a.e, ASYNC_EVENTS);
                } else if !newFlags.Async && was {
                    self.0.FileOp.EventUnregister(task, &a.e);
                }
            },
        }
    }

    /// The offset of the file.
    pub fn Offset(&self, task: &Task) -> (r: Result<i64, Error>)
        ensures
            r == Ok::<i64, Error>(self.0.offset),
    {
        Ok(self.0.offset)
    }

    /// Moves the offset as the operations compute it from `whence` and
    /// `offset`, and returns the new offset.
    pub fn Seek(&mut self, task: &Task, whence: i32, offset: i64) -> (r: Result<i64, Error>)
        requires
            old(self).wf(),
        ensures
            final(self).wf(),
            old(self).sameHandle(final(self)),
            old(self).0.FileOp.seekPost(&final(self).0.FileOp, old(self).0.Dirent, whence, old(self).0.offset, offset, r),
            final(self).0.offset == match r {
                Ok(n) => n,
                Err(_) => old(self).0.offset,
            },
    {
        let current = self.0.offset;
        let d = self.0.Dirent;
        let newOffset = self.0.FileOp.Seek(task, &d, whence, current, offset)?;
        self.0.offset = newOffset;
        Ok(newOffset)
    }

    /// Reads directory entries from the offset on, and moves the offset to
    /// where the operations say to go on from.
    pub fn ReadDir(&mut self, task: &Task, serializer: &mut DentrySerializer) -> (r: Result<(), Error>)
        requires
            old(self).wf(),
        ensures
            final(self).wf(),
            old(self).sameHandle(final(self)),
            match r {
                Ok(()) => old(self).0.FileOp.readDirPost(
                    &final(self).0.FileOp,
                    old(self).0.Dirent,
                    old(self).0.offset,
                    Ok(final(self).0.offset),
                ),
                Err(e) => final(self).0.offset == old(self).0.offset && old(self).0.FileOp.readDirPost(
                    &final(self).0.FileOp,
                    old(self).0.Dirent,
                    old(self).0.offset,
                    Err(e),
                ),
            },
    {
        let current = self.0.offset;
        let d = self.0.Dirent;
        self.0.offset = self.0.FileOp.ReadDir(task, &d, current, serializer)?;
        Ok(())
    }

    /// Reads into `dst`. A file that can seek is read at its offset, which
    /// then advances by the number of bytes read, if positive; the read is
    /// counted in `reads` first. Any other file is read at 0.
    pub fn Readv(&mut self, task: &Task, reads: &mut U64Metric, dst: &mut Vec<u8>) -> (r: Result<i64, Error>)
        requires
            old(self).wf(),
            old(self).0.FileOp.seekable() ==> old(self).0.offset + old(dst)@.len() <= i64::MAX,
        ensures
            final(self).wf(),
            old(self).sameHandle(final(self)),
            final(dst)@.len() == old(dst)@.len(),
            old(self).0.FileOp.readAtPost(
                &final(self).0.FileOp,
                old(self).0.Dirent,
                old(dst)@,
                final(dst)@,
                if old(self).0.FileOp.seekable() {
                    old(self).0.offset
                } else {
                    0
                },
                old(self).blocking(),
                r,
            ),
            old(self).0.FileOp.seekable() ==> final(reads).value == U64Metric::next(old(reads).value),
            !old(self).0.FileOp.seekable() ==> final(reads).value == old(reads).value,
            old(reads).sameCounter(final(reads)),
            final(self).0.offset == match r {
                Ok(n) => if old(self).0.FileOp.seekable() {
                    Advanced(old(self).0.offset, n)
                } else {
                    old(self).0.offset as int
                },
                Err(_) => old(self).0.offset as int,
            },
    {
        let seekable = self.0.FileOp.Seekable();
        let d = self.0.Dirent;
        let blocking = self.Blocking();
        if seekable {
            let current = self.0.offset;
            reads.Incr();
            let n = self.0.FileOp.ReadAt(task, &d, dst, current, blocking)?;
            if n > 0 {
                self.0.offset = current + n;
            }
            Ok(n)
        } else {
            let n = self.0.FileOp.ReadAt(task, &d, dst, 0, blocking)?;
            Ok(n)
        }
    }

    /// Reads into `dst` at `offset`. The file's own offset stays, and it
    /// does not matter whether the file appends.
    pub fn Preadv(&mut self, task: &Task, dst: &mut Vec<u8>, offset: i64) -> (r: Result<i64, Error>)
        requires
            old(self).wf(),
        ensures
            final(self).wf(),
            old(self).sameHandle(final(self)),
            final(self).0.offset == old(self).0.offset,
            final(dst)@.len() == old(dst)@.len(),
            old(self).0.FileOp.readAtPost(
                &final(self).0.FileOp,
                old(self).0.Dirent,
                old(dst)@,
                final(dst)@,
                offset,
                old(self).blocking(),
                r,
            ),
    {
        let d = self.0.Dirent;
        let blocking = self.Blocking();
        let n = self.0.FileOp.ReadAt(task, &d, dst, offset, blocking)?;
        Ok(n)
    }

    /// The offset at which an append takes place: the size of the file;
    /// `EIO` if its attributes cannot be had.
    pub fn offsetForAppend(&self, task: &Task) -> (r: Result<i64, Error>)
        requires
            self.wf(),
        ensures
            match r {
                Ok(n) => exists|u: UnstableAttr| u.Size == n && #[trigger] self.0.FileOp.unstableAttrPost(self.0.Dirent, Ok(u)),
                Err(e) => e == Error::SysError(SysErr::EIO) && exists|inner: Error| #[trigger]
                    self.0.FileOp.unstableAttrPost(self.0.Dirent, Err(inner)),
            },
    {
        let d = self.0.Dirent;
        match self.0.FileOp.UnstableAttr(task, &d) {
            Err(e) => {
                assert(self.0.FileOp.unstableAttrPost(self.0.Dirent, Err(e)));
                Err(Error::SysError(SysErr::EIO))
            },
            Ok(u) => {
                assert(self.0.FileOp.unstableAttrPost(self.0.Dirent, Ok(u)));
                Ok(u.Size)
            },
        }
    }

    /// Checks a write at `offset` against the file size limit. The second
    /// part says whether the write is limited; if it is, the first part is
    /// the number of bytes that may still be written, 0 if none. Only
    /// regular files are limited.
    pub fn checkLimit(&self, offset: i64) -> (r: (i64, bool))
        ensures
            r == LimitAt(self.0.Dirent.Inode.Type == InodeFileType::RegularFile, self.0.fileSizeLimit, offset),
    {
        let regular = match self.0.Dirent.Inode.Type {
            InodeFileType::RegularFile => true,
            _ => false,
        };
        if !regular || self.0.fileSizeLimit > i64::MAX as u64 {
            return (0, false);
        }
        let limit = self.0.fileSizeLimit as i64;
        if offset >= limit {
            return (0, true);
        }
        if offset < 0 && limit > i64::MAX + offset {
            return (i64::MAX, true);
        }
        (limit - offset, true)
    }

    /// Whether a write at `offset` is refused outright for the limit on
    /// the size of the file.
    pub open spec fn overLimit(&self, offset: i64) -> bool {
        LimitAt(self.0.Dirent.Inode.Type == InodeFileType::RegularFile, self.0.fileSizeLimit, offset) == (0i64, true)
    }

    /// The outcomes of `Writev`.
    ///
    /// A file that can seek and appends is appended to, and its offset
    /// becomes the length that the file then has. Any other file that can
    /// seek is written at its offset, unless the limit on its size refuses
    /// that, and the offset advances by the number of bytes written, if
    /// positive. A file that cannot seek is written at 0.
    pub open spec fn writevPost(&self, after: &Self, src: Seq<u8>, r: Result<i64, Error>) -> bool {
        if !self.0.FileOp.seekable() {
            &&& after.0.offset == self.0.offset
            &&& self.0.FileOp.writeAtPost(&after.0.FileOp, self.0.Dirent, src, 0, self.blocking(), r)
        } else if self.0.flags.Append {
            match r {
                Ok(cnt) => self.0.FileOp.appendPost(&after.0.FileOp, self.0.Dirent, src, Ok((cnt, after.0.offset))),
                Err(e) => after.0.offset == self.0.offset && self.0.FileOp.appendPost(
                    &after.0.FileOp,
                    self.0.Dirent,
                    src,
                    Err(e),
                ),
            }
        } else if self.overLimit(self.0.offset) {
            &&& r == Err::<i64, Error>(Error::ErrExceedsFileSizeLimit)
            &&& after.0.offset == self.0.offset
            &&& after.0.FileOp == self.0.FileOp
        } else {
            &&& self.0.FileOp.writeAtPost(&after.0.FileOp, self.0.Dirent, src, self.0.offset, self.blocking(), r)
            &&& after.0.offset == match r {
                Ok(n) => Advanced(self.0.offset, n),
                Err(_) => self.0.offset as int,
            }
        }
    }

    /// Writes `src` at the file's offset, or at its end if the file
    /// appends.
    #[verifier::rlimit(50)]
    pub fn Writev(&mut self, task: &Task, src: &[u8]) -> (r: Result<i64, Error>)
        requires
            old(self).wf(),
            old(self).0.FileOp.seekable() ==> old(self).0.offset + src@.len() <= i64::MAX,
        ensures
            final(self).wf(),
            old(self).sameHandle(final(self)),
            old(self).writevPost(final(self), src@, r),
    {
        let seekable = self.0.FileOp.Seekable();
        let d = self.0.Dirent;
        if seekable {
            if self.0.flags.Append {
                let (cnt, len) = self.0.FileOp.Append(task, &d, src)?;
                self.0.offset = len;
                return Ok(cnt);
            }
            let current = self.0.offset;
            let (limit, ok) = self.checkLimit(current);
            if ok && limit == 0 {
                return Err(Error::ErrExceedsFileSizeLimit);
            }
            let blocking = self.Blocking();
            let n = self.0.FileOp.WriteAt(task, &d, src, current, blocking)?;
            if n > 0 {
                self.0.offset = current + n;
            }
            Ok(n)
        } else {
            let blocking = self.Blocking();
            let n = self.0.FileOp.WriteAt(task, &d, src, 0, blocking)?;
            Ok(n)
        }
    }

    /// Writes `src` at `offset`, unless the limit on the size of the file
    /// refuses that. The file's own offset stays; a file that appends is
    /// written at `offset` all the same.
    pub fn Pwritev(&mut self, task: &Task, src: &[u8], offset: i64) -> (r: Result<i64, Error>)
        requires
            old(self).wf(),
        ensures
            final(self).wf(),
            old(self).sameHandle(final(self)),
            final(self).0.offset == old(self).0.offset,
            old(self).overLimit(offset) ==> r == Err::<i64, Error>(Error::ErrExceedsFileSizeLimit) && final(self).0.FileOp == old(self).0.FileOp,
            !old(self).overLimit(offset) ==> old(self).0.FileOp.writeAtPost(
                &final(self).0.FileOp,
                old(self).0.Dirent,
                src@,
                offset,
                old(self).blocking(),
                r,
            ),
    {
        let (limit, ok) = self.checkLimit(offset);
        if ok && limit == 0 {
            return Err(Error::ErrExceedsFileSizeLimit);
        }
        let d = self.0.Dirent;
        let blocking = self.Blocking();
        let n = self.0.FileOp.WriteAt(task, &d, src, offset, blocking)?;
        Ok(n)
    }

    /// Writes back what the file holds between `start` and `end`.
    pub fn Fsync(&mut self, task: &Task, start: i64, end: i64, syncType: SyncType) -> (r: Result<(), Error>)
        requires
            old(self).wf(),
        ensures
            final(self).wf(),
            old(self).sameHandle(final(self)),
            final(self).0.offset == old(self).0.offset,
            old(self).0.FileOp.fsyncPost(&final(self).0.FileOp, old(self).0.Dirent, start, end, syncType, r),
    {
        let d = self.0.Dirent;
        self.0.FileOp.Fsync(task, &d, start, end, syncType)
    }

    /// Flushes the file as it is closed: a file open for writing is
    /// flushed by its operations, any other file has nothing to flush.
    pub fn Flush(&mut self, task: &Task) -> (r: Result<(), Error>)
        requires
            old(self).wf(),
        ensures
            final(self).wf(),
            old(self).sameHandle(final(self)),
            final(self).0.offset == old(self).0.offset,
            old(self).0.flags.Write ==> old(self).0.FileOp.flushPost(&final(self).0.FileOp, old(self).0.Dirent, r),
            !old(self).0.flags.Write ==> r == Ok::<(), Error>(()) && final(self).0.FileOp == old(self).0.FileOp,
    {
        let flags = self.Flags();
        if flags.Write {
            let d = self.0.Dirent;
            return self.0.FileOp.Flush(task, &d);
        }
        Ok(())
    }

    /// The attributes of the file that change.
    pub fn UnstableAttr(&self, task: &Task) -> (r: Result<UnstableAttr, Error>)
        requires
            self.wf(),
        ensures
            self.0.FileOp.unstableAttrPost(self.0.Dirent, r),
    {
        let d = self.0.Dirent;
        self.0.FileOp.UnstableAttr(task, &d)
    }

    /// Hands a device request to the operations.
    pub fn Ioctl(&mut self, task: &mut Task, fd: i32, request: u64, val: u64) -> (r: Result<(), Error>)
        requires
            old(self).wf(),
        ensures
            final(self).wf(),
            old(self).sameHandle(final(self)),
            final(self).0.offset == old(self).0.offset,
            old(self).0.FileOp.ioctlPost(&final(self).0.FileOp, old(task)@, final(task)@, fd, request, val, r),
    {
        self.0.FileOp.Ioctl(task, fd, request, val)
    }

    /// The events of `mask` that are ready on the file.
    pub fn Readiness(&self, task: &Task, mask: EventMask) -> (r: EventMask)
        ensures
            r == self.0.FileOp.readiness(mask),
    {
        self.0.FileOp.Readiness(task, mask)
    }

    /// Adds waiter `e` to the file's event source.
    pub fn EventRegister(&mut self, task: &Task, e: &WaitEntry, mask: EventMask)
        ensures
            old(self).0.FileOp.registered(&final(self).0.FileOp, *e, mask),
            final(self).0.UniqueId == old(self).0.UniqueId,
            final(self).0.flags == old(self).0.flags,
            final(self).0.asyncOwner == old(self).0.asyncOwner,
            final(self).0.offset == old(self).0.offset,
    {
        self.0.FileOp.EventRegister(task, e, mask);
    }

    /// Takes waiter `e` from the file's event source.
    pub fn EventUnregister(&mut self, task: &Task, e: &WaitEntry)
        ensures
            old(self).0.FileOp.unregistered(&final(self).0.FileOp, *e),
            final(self).0.UniqueId == old(self).0.UniqueId,
            final(self).0.flags == old(self).0.flags,
            final(self).0.asyncOwner == old(self).0.asyncOwner,
            final(self).0.offset == old(self).0.offset,
    {
        self.0.FileOp.EventUnregister(task, e);
    }

    /// The number of the device shown for a mapping of the file.
    pub fn DeviceID(&self) -> (r: u64)
        ensures
            r == self.0.Dirent.Inode.InodeId,
    {
        self.0.Dirent.Inode.InodeId
    }

    /// The number of the inode shown for a mapping of the file.
    pub fn InodeID(&self) -> (r: u64)
        ensures
            r == self.0.Dirent.Inode.InodeId,
    {
        self.0.Dirent.Inode.InodeId
    }
}


/// A handle to a file of the host: a plain one, or a terminal.
pub enum HostFile<F: FileOperations> {
    Plain(File<F>),
    Tty(File<TTYFileOps<F>>),
}

/// What `F_GETFL` on a host descriptor says of the flags of the file, from
/// the value `ret` that the call returned: the errno for a negative value,
/// else the flags that the bits stand for.
pub fn GetFileFlags(ret: i32) -> (r: Result<FileFlags, Error>)
    requires
        ret > i32::MIN,
    ensures
        r == if ret < 0 {
            Err::<FileFlags, Error>(Error::SysError((-ret) as i32))
        } else {
            Ok::<FileFlags, Error>(FileFlags::fromFcntl(ret as u32))
        },
{
    if ret < 0 {
        return Err(Error::SysError(-ret));
    }
    Ok(FileFlags::FromFcntl(ret as u32))
}

impl<F: FileOperations> File<F> {
    /// A handle to a terminal of the host, over the host file operations
    /// `fops`.
    pub fn NewTTYFile(uids: &mut UniqueIdSource, dirent: &Dirent, flags: &FileFlags, fops: F) -> (r: File<TTYFileOps<F>>)
        requires
            old(uids).next < u64::MAX,
            fops.wf(),
        ensures
            r.0.UniqueId == old(uids).next,
            final(uids).next == old(uids).next + 1,
            r.0.Dirent == *dirent,
            r.0.flags == *flags,
            r.0.asyncOwner is None,
            r.0.offset == 0,
            r.0.FileOp.fileOps == fops,
            r.0.refs == 1,
            r.wf(),
    {
        let ttyfileops = TTYFileOps::New(fops);
        File::<TTYFileOps<F>>::New(uids, dirent, flags, ttyfileops)
    }

    /// A handle to the file behind a host descriptor, of which `mode` is
    /// the file mode and `fileFlags` the flags that the host reports;
    /// `dirent` and `fops` stand for the file in the guest.
    ///
    /// A socket cannot be taken as a terminal; other sockets are not
    /// taken here at all.
    pub fn NewFileFromFd(
        uids: &mut UniqueIdSource,
        mode: u32,
        fileFlags: &FileFlags,
        dirent: &Dirent,
        fops: F,
        isTTY: bool,
    ) -> (r: Result<HostFile<F>, Error>)
        requires
            old(uids).next < u64::MAX,
            fops.wf(),
            mode & S_IFMT == S_IFSOCK ==> isTTY,
        ensures
            mode & S_IFMT == S_IFSOCK ==> {
                &&& r matches Err(Error::Common(msg))
                &&& msg@ == "cannot import host socket as TTY"@
                &&& *final(uids) == *old(uids)
            },
            mode & S_IFMT != S_IFSOCK && isTTY ==> {
                &&& r matches Ok(HostFile::Tty(f))
                &&& f.0.UniqueId == old(uids).next
                &&& f.0.flags == *fileFlags
                &&& f.0.Dirent == *dirent
                &&& f.0.FileOp.fileOps == fops
                &&& f.0.offset == 0
                &&& f.wf()
            },
            mode & S_IFMT != S_IFSOCK && !isTTY ==> {
                &&& r matches Ok(HostFile::Plain(f))
                &&& f.0.UniqueId == old(uids).next
                &&& f.0.flags == if dirent.Inode.WouldBlock {
                    *fileFlags
                } else {
                    FileFlags { Pread: true, PWrite: true, ..*fileFlags }
                }
                &&& f.0.Dirent == *dirent
                &&& f.0.FileOp == fops
                &&& f.0.offset == 0
                &&& f.wf()
            },
    {
        if mode & S_IFMT == S_IFSOCK {
            return Err(Error::Common("cannot import host socket as TTY".to_string()));
        }
        let wouldBlock = dirent.Inode.WouldBlock;
        if isTTY {
            return Ok(HostFile::Tty(Self::NewTTYFile(uids, dirent, fileFlags, fops)));
        }
        Ok(HostFile::Plain(Self::NewHostFile(uids, dirent, fileFlags, fops, wouldBlock)))
    }

    /// Takes one more holder of the handle.
    pub fn Retain(&mut self)
        requires
            old(self).0.refs < usize::MAX,
        ensures
            final(self).0.refs == old(self).0.refs + 1,
            final(self).0.UniqueId == old(self).0.UniqueId,
            final(self).0.flags == old(self).0.flags,
            final(self).0.asyncOwner == old(self).0.asyncOwner,
            final(self).0.offset == old(self).0.offset,
            final(self).0.FileOp == old(self).0.FileOp,
    {
        self.0.refs = self.0.refs + 1;
    }

    /// Whether the last holder gives up the handle while the owner is
    /// registered with the file's event source.
    pub open spec fn lastDropUnregisters(&self) -> bool {
        self.0.refs == 1 && self.0.flags.Async && self.0.asyncOwner is Some
    }

    /// Gives up one holder of the handle. When the last one goes, the
    /// locks that the table of descriptors `lockUniqueID` holds on the file
    /// are given up, of both styles; the owner is unregistered if it was
    /// registered; and the file has no owner any more.
    pub fn Drop(&mut self, task: &Task, lockUniqueID: u64, lockCtx: &mut LockCtx)
        requires
            old(self).0.refs >= 1,
        ensures
            final(self).0.refs == old(self).0.refs - 1,
            final(self).0.UniqueId == old(self).0.UniqueId,
            final(self).0.flags == old(self).0.flags,
            final(self).0.offset == old(self).0.offset,
            final(self).0.asyncOwner == if old(self).0.refs == 1 {
                None
            } else {
                old(self).0.asyncOwner
            },
            old(self).0.refs == 1 ==> final(lockCtx).BSD.held@ == NotOf(old(lockCtx).BSD.held@, lockUniqueID)
                && final(lockCtx).Posix.held@ == NotOf(old(lockCtx).Posix.held@, lockUniqueID),
            old(self).0.refs != 1 ==> *final(lockCtx) == *old(lockCtx),
            old(self).lastDropUnregisters() ==> old(self).0.FileOp.unregistered(
                &final(self).0.FileOp,
                old(self).0.asyncOwner->0.e,
            ),
            !old(self).lastDropUnregisters() ==> final(self).0.FileOp == old(self).0.FileOp,
    {
        if self.0.refs == 1 {
            lockCtx.BSD.UnlockRegion(lockUniqueID);
            lockCtx.Posix.UnlockRegion(lockUniqueID);
            // There is nothing to unregister where no owner was set or
            // async mode is off.
            match self.0.asyncOwner {
                Some(a) => {
                    if self.0.flags.Async {
                        self.0.FileOp.EventUnregister(task, &a.e);
                    }
                },
                None => {},
            }
            self.0.asyncOwner = None;
        }
        self.0.refs = self.0.refs - 1;
    }
}

} // verus!
