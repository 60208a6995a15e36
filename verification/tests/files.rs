use quark_core::fs::attr::DentrySerializer;
use quark_core::fs::attr::DirCtx;
use quark_core::fs::attr::Dirent;
use quark_core::fs::attr::Inode;
use quark_core::fs::attr::InodeFileType;
use quark_core::fs::attr::UnstableAttr;
use quark_core::fs::attr::SEEK_CUR;
use quark_core::fs::attr::SEEK_END;
use quark_core::fs::attr::SEEK_SET;
use quark_core::fs::file::File;
use quark_core::fs::file::FileOperations;
use quark_core::fs::file::FileOpsType;
use quark_core::fs::file::GetFileFlags;
use quark_core::fs::file::HostFile;
use quark_core::fs::file::SockOperations;
use quark_core::fs::file::SpliceOperations;
use quark_core::fs::file::SpliceOpts;
use quark_core::fs::file::SyncType;
use quark_core::fs::file::UniqueIdSource;
use quark_core::fs::file::Waitable;
use quark_core::fs::file_order::Before;
use quark_core::fs::file_order::SameFile;
use quark_core::fs::flags::FileFlags;
use quark_core::fs::flags::SettableFileFlags;
use quark_core::fs::fsutil::file::readonly_file::NewSnapshotReadonlyFileOperations;
use quark_core::fs::fsutil::file::readonly_file::ReadonlyFileOperations;
use quark_core::fs::fsutil::file::readonly_file::SnapshotReadonlyFileNode;
use quark_core::fs::fsutil::file::seek::SeekWithDirCursor;
use quark_core::fs::lock::LockCtx;
use quark_core::fs::lock::Locks;
use quark_core::fs::lock::RegionLock;
use quark_core::kernel::fasync::FileAsync;
use quark_core::kernel::fasync::ASYNC_EVENTS;
use quark_core::kernel::pipe::pipe::Pipe;
use quark_core::kernel::pipe::reader_writer::ReaderWriter;
use quark_core::kernel::pipe::reader_writer::FIONREAD;
use quark_core::kernel::waiter::WaitEntry;
use quark_core::qlib::common::Error;
use quark_core::qlib::common::SysErr;
use quark_core::qlib::linux_def::EVENT_IN;
use quark_core::qlib::linux_def::EVENT_OUT;
use quark_core::fs::file::InitSingleton;
use quark_core::qlib::metric::NewU64Metric;
use quark_core::stack::StackValue;
use quark_core::stack::UserMemory;
use quark_core::task::Task;
use quark_core::threadmgr::thread::Thread;

type Snapshot = ReadonlyFileOperations<SnapshotReadonlyFileNode>;

fn task() -> Task {
    Task::New(Thread { tg: 0, idx: 0 }, UserMemory::New(0x1000, 0x10000))
}

fn dirent(kind: InodeFileType, size: i64) -> Dirent {
    Dirent {
        Inode: Inode {
            InodeId: 77,
            Type: kind,
            WouldBlock: false,
            Attr: UnstableAttr { Size: size, Usage: size, Links: 1 },
        },
    }
}

fn flags() -> FileFlags {
    let mut f = FileFlags::default();
    f.Read = true;
    f
}

fn snapshot_file(uids: &mut UniqueIdSource, data: &[u8]) -> File<Snapshot> {
    let d = dirent(InodeFileType::RegularFile, data.len() as i64);
    File::New(uids, &d, &flags(), NewSnapshotReadonlyFileOperations(data.to_vec()))
}

fn pipe_file(uids: &mut UniqueIdSource, max: usize) -> File<ReaderWriter> {
    let d = dirent(InodeFileType::Pipe, 0);
    let mut f = flags();
    f.Write = true;
    File::New(uids, &d, &f, ReaderWriter::New(Pipe::New(max)))
}

fn einval<T>() -> Result<T, Error> {
    Err(Error::SysError(SysErr::EINVAL))
}

#[test]
fn readonly_snapshot() {
    let t = task();
    let d = dirent(InodeFileType::RegularFile, 3);
    let mut ops = NewSnapshotReadonlyFileOperations(vec![0x41, 0x42, 0x43]);
    let mut dst = vec![0u8; 5];
    assert_eq!(ops.ReadAt(&t, &d, &mut dst, 1, true), Ok(2));
    assert_eq!(dst, vec![0x42, 0x43, 0, 0, 0]);
    let mut dst = vec![9u8; 5];
    assert_eq!(ops.ReadAt(&t, &d, &mut dst, 3, true), Ok(0));
    assert_eq!(dst, vec![9u8; 5]);
    assert_eq!(ops.ReadAt(&t, &d, &mut dst, 100, true), Ok(0));
    assert_eq!(ops.ReadAt(&t, &d, &mut dst, -1, true), einval());
    assert_eq!(ops.WriteAt(&t, &d, &[1, 2, 3], 0, true), einval());
    assert_eq!(ops.WriteAt(&t, &d, &[], 7, false), einval());
    assert_eq!(ops.Append(&t, &d, &[1]), einval());
    assert_eq!(ops.Fsync(&t, &d, 0, 10, SyncType::SyncAll), Ok(()));
    assert_eq!(ops.Flush(&t, &d), Ok(()));
}

#[test]
fn readonly_read_fills_only_as_far_as_the_buffer_goes() {
    let t = task();
    let d = dirent(InodeFileType::RegularFile, 5);
    let mut ops = NewSnapshotReadonlyFileOperations(vec![1, 2, 3, 4, 5]);
    let mut dst = vec![0u8; 2];
    assert_eq!(ops.ReadAt(&t, &d, &mut dst, 0, true), Ok(2));
    assert_eq!(dst, vec![1, 2]);
    let mut none: Vec<u8> = Vec::new();
    assert_eq!(ops.ReadAt(&t, &d, &mut none, 0, true), Ok(0));
}

#[test]
fn readonly_operations_refuse_what_they_cannot_do() {
    let mut t = task();
    let d = dirent(InodeFileType::RegularFile, 3);
    let mut ops = NewSnapshotReadonlyFileOperations(vec![1, 2, 3]);
    assert!(ops.Seekable());
    assert_eq!(ops.FopsType(), FileOpsType::ReadonlyFileOperations);
    let mut ser = DentrySerializer { written: 0 };
    assert_eq!(ops.ReadDir(&t, &d, 0, &mut ser), Err(Error::SysError(SysErr::ENOTDIR)));
    assert_eq!(ops.Ioctl(&mut t, 3, FIONREAD, 0x2000), Err(Error::SysError(SysErr::ENOTTY)));
    let mut ctx = DirCtx { cursor: 0 };
    assert_eq!(ops.IterateDir(&t, &d, &mut ctx, 0), (0, Err(Error::SysError(SysErr::ENOTDIR))));
    assert_eq!(ops.Mappable(), Err(Error::SysError(SysErr::ENODEV)));
    assert_eq!(ops.UnstableAttr(&t, &d), Ok(d.Inode.Attr));
    assert_eq!(ops.Readiness(&t, EVENT_IN | EVENT_OUT), EVENT_IN | EVENT_OUT);
    assert_eq!(ops.Connect(&t, &[0u8; 4], true), Err(Error::SysError(SysErr::ENOTSOCK)));
    assert_eq!(ops.Listen(&t, 5), Err(Error::SysError(SysErr::ENOTSOCK)));
    assert_eq!(ops.Shutdown(&t, 0), Err(Error::SysError(SysErr::ENOTSOCK)));
    assert_eq!(ops.RecvTimeout(), 0);
    assert_eq!(ops.SendTimeout(), 0);
}

#[test]
fn splice_defaults() {
    let t = task();
    let mut ops = NewSnapshotReadonlyFileOperations(vec![1]);
    let mut o = SpliceOpts::default();
    assert_eq!(ops.WriteTo(&t, true, true, &o), Err(Error::SysError(SysErr::ENOSYS)));
    o.SrcOffset = true;
    assert_eq!(ops.WriteTo(&t, false, true, &o), einval());
    assert_eq!(ops.WriteTo(&t, true, false, &o), Err(Error::SysError(SysErr::ENOSYS)));
    o.DstOffset = true;
    assert_eq!(ops.WriteTo(&t, true, false, &o), einval());
    assert_eq!(ops.ReadFrom(&t, false, true, &o), einval());
    assert_eq!(ops.ReadFrom(&t, true, false, &o), einval());
    assert_eq!(ops.ReadFrom(&t, true, true, &o), Err(Error::SysError(SysErr::ENOSYS)));
}

#[test]
fn seek_targets() {
    let reg = dirent(InodeFileType::RegularFile, 100);
    assert_eq!(SeekWithDirCursor(&reg, SEEK_SET, 40, 7), Ok(7));
    assert_eq!(SeekWithDirCursor(&reg, SEEK_SET, 40, -1), einval());
    assert_eq!(SeekWithDirCursor(&reg, SEEK_CUR, 40, 7), Ok(47));
    assert_eq!(SeekWithDirCursor(&reg, SEEK_CUR, 40, -41), einval());
    assert_eq!(SeekWithDirCursor(&reg, SEEK_CUR, i64::MAX, 1), einval());
    assert_eq!(SeekWithDirCursor(&reg, SEEK_END, 40, -10), Ok(90));
    assert_eq!(SeekWithDirCursor(&reg, SEEK_END, 40, 5), Ok(105));
    assert_eq!(SeekWithDirCursor(&reg, 9, 40, 0), einval());
    let pipe = dirent(InodeFileType::Pipe, 0);
    assert_eq!(SeekWithDirCursor(&pipe, SEEK_SET, 0, 0), Err(Error::SysError(SysErr::ESPIPE)));
    let sock = dirent(InodeFileType::Socket, 0);
    assert_eq!(SeekWithDirCursor(&sock, SEEK_CUR, 0, 0), Err(Error::SysError(SysErr::ESPIPE)));
    let chr = dirent(InodeFileType::CharacterDevice, 0);
    assert_eq!(SeekWithDirCursor(&chr, SEEK_SET, 5, 9), Ok(0));
    let dir = dirent(InodeFileType::Directory, 0);
    assert_eq!(SeekWithDirCursor(&dir, SEEK_SET, 5, 0), Ok(0));
    assert_eq!(SeekWithDirCursor(&dir, SEEK_CUR, 5, 0), Ok(5));
    assert_eq!(SeekWithDirCursor(&dir, SEEK_SET, 5, 1), einval());
    assert_eq!(SeekWithDirCursor(&dir, SEEK_END, 5, 0), einval());
    let blk = dirent(InodeFileType::BlockDevice, 0);
    assert_eq!(SeekWithDirCursor(&blk, SEEK_SET, 0, 512), Ok(512));
    assert_eq!(SeekWithDirCursor(&blk, SEEK_END, 0, 0), einval());
    let link = dirent(InodeFileType::Symlink, 0);
    assert_eq!(SeekWithDirCursor(&link, SEEK_SET, 0, 0), einval());
}

#[test]
fn new_files_get_rising_ids() {
    let mut uids = UniqueIdSource::New();
    let a = snapshot_file(&mut uids, &[1]);
    let b = snapshot_file(&mut uids, &[1]);
    assert_eq!(a.UniqueId(), 1);
    assert_eq!(b.UniqueId(), 2);
    assert!(Before(&a, &b));
    assert!(!Before(&b, &a));
    assert!(!SameFile(&a, &b));
    assert!(SameFile(&a, &a));
    assert!(a < b);
    assert!(a != b);
}

#[test]
fn readv_on_a_seekable_file_advances_the_offset_by_what_was_read() {
    let t = task();
    let mut uids = UniqueIdSource::New();
    let mut f = snapshot_file(&mut uids, &[10, 20, 30, 40, 50]);
    let mut reads = InitSingleton();
    let mut dst = vec![0u8; 2];
    assert_eq!(f.Readv(&t, &mut reads, &mut dst), Ok(2));
    assert_eq!(dst, vec![10, 20]);
    assert_eq!(f.Offset(&t), Ok(2));
    let mut dst = vec![0u8; 10];
    assert_eq!(f.Readv(&t, &mut reads, &mut dst), Ok(3));
    assert_eq!(&dst[..3], &[30, 40, 50]);
    assert_eq!(f.Offset(&t), Ok(5));
    assert_eq!(f.Readv(&t, &mut reads, &mut dst), Ok(0));
    assert_eq!(f.Offset(&t), Ok(5));
    assert_eq!(reads.Value(), 3);
}

#[test]
fn readv_error_leaves_the_offset() {
    let t = task();
    let mut uids = UniqueIdSource::New();
    let mut f = snapshot_file(&mut uids, &[10, 20, 30]);
    f.0.offset = -5;
    let mut reads = InitSingleton();
    let mut dst = vec![0u8; 2];
    assert_eq!(f.Readv(&t, &mut reads, &mut dst), einval());
    assert_eq!(f.Offset(&t), Ok(-5));
    assert_eq!(reads.Value(), 1);
}

#[test]
fn preadv_never_touches_the_offset() {
    let t = task();
    let mut uids = UniqueIdSource::New();
    let mut f = snapshot_file(&mut uids, &[10, 20, 30]);
    f.0.flags.Append = true;
    let mut dst = vec![0u8; 2];
    assert_eq!(f.Preadv(&t, &mut dst, 1), Ok(2));
    assert_eq!(dst, vec![20, 30]);
    assert_eq!(f.Offset(&t), Ok(0));
}

#[test]
fn seek_stores_the_new_offset() {
    let t = task();
    let mut uids = UniqueIdSource::New();
    let mut f = snapshot_file(&mut uids, &[10, 20, 30]);
    assert_eq!(f.Seek(&t, SEEK_END, -1), Ok(2));
    assert_eq!(f.Offset(&t), Ok(2));
    assert_eq!(f.Seek(&t, SEEK_CUR, -3), einval());
    assert_eq!(f.Offset(&t), Ok(2));
    let mut ser = DentrySerializer { written: 0 };
    assert_eq!(f.ReadDir(&t, &mut ser), Err(Error::SysError(SysErr::ENOTDIR)));
    assert_eq!(f.Offset(&t), Ok(2));
}

#[test]
fn writes_to_a_readonly_file_fail_and_leave_the_offset() {
    let t = task();
    let mut uids = UniqueIdSource::New();
    let mut f = snapshot_file(&mut uids, &[10, 20, 30]);
    assert_eq!(f.Writev(&t, &[1, 2]), einval());
    f.0.flags.Append = true;
    assert_eq!(f.Writev(&t, &[1, 2]), einval());
    assert_eq!(f.Pwritev(&t, &[1, 2], 1), einval());
    assert_eq!(f.Offset(&t), Ok(0));
    assert_eq!(f.Fsync(&t, 0, 3, SyncType::SyncData), Ok(()));
    assert_eq!(f.Flush(&t), Ok(()));
    assert_eq!(f.UnstableAttr(&t).unwrap().Size, 3);
    assert_eq!(f.offsetForAppend(&t), Ok(3));
}

#[test]
fn file_size_limit() {
    let mut uids = UniqueIdSource::New();
    let mut f = snapshot_file(&mut uids, &[10, 20, 30]);
    assert_eq!(f.checkLimit(0), (0, false));
    f.0.fileSizeLimit = 100;
    assert_eq!(f.checkLimit(0), (100, true));
    assert_eq!(f.checkLimit(99), (1, true));
    assert_eq!(f.checkLimit(100), (0, true));
    assert_eq!(f.checkLimit(500), (0, true));
    assert_eq!(f.checkLimit(-1), (101, true));
    f.0.fileSizeLimit = i64::MAX as u64;
    assert_eq!(f.checkLimit(-1), (i64::MAX, true));
    f.0.fileSizeLimit = i64::MAX as u64 + 1;
    assert_eq!(f.checkLimit(0), (0, false));
    let t = task();
    f.0.fileSizeLimit = 2;
    f.0.offset = 2;
    assert_eq!(f.Writev(&t, &[1]), Err(Error::ErrExceedsFileSizeLimit));
    assert_eq!(f.Pwritev(&t, &[1], 2), Err(Error::ErrExceedsFileSizeLimit));
    assert_eq!(f.Pwritev(&t, &[1], 1), einval());
    // Pipes are not limited.
    let mut p = pipe_file(&mut uids, 16);
    p.0.fileSizeLimit = 0;
    assert_eq!(p.checkLimit(0), (0, false));
    assert_eq!(p.Writev(&t, &[1, 2, 3]), Ok(3));
}

#[test]
fn flags_from_fcntl() {
    let f = FileFlags::FromFcntl(0);
    assert!(f.Read && !f.Write && !f.Append && !f.NonBlocking);
    let f = FileFlags::FromFcntl(1);
    assert!(!f.Read && f.Write);
    let f = FileFlags::FromFcntl(2 | 0x400 | 0x800 | 0x4000 | 0x2000);
    assert!(f.Read && f.Write && f.Append && f.NonBlocking && f.Direct && f.Async);
    let f = FileFlags::FromFcntl(0x1000);
    assert!(f.DSync && !f.Sync);
    let f = FileFlags::FromFcntl(0x10_1000);
    assert!(f.DSync && f.Sync);
    let f = FileFlags::FromFcntl(0x1_0000 | 0x8000 | 0x200);
    assert!(f.Directory && f.LargeFile && f.Truncate);
    assert_eq!(GetFileFlags(-9), Err(Error::SysError(9)));
    assert_eq!(GetFileFlags(0x800), Ok(FileFlags::FromFcntl(0x800)));
}

#[test]
fn set_flags_twice_is_the_same_as_once() {
    let t = task();
    let mut uids = UniqueIdSource::New();
    let mut f = pipe_file(&mut uids, 16);
    f.Async(&t, Some(FileAsync { e: WaitEntry::New(9) }));
    let a = SettableFileFlags { Direct: true, NonBlocking: true, Append: false, Async: true };
    f.SetFlags(&t, a);
    let flags_once = f.Flags();
    let waiters_once = f.0.FileOp.pipe.queue.entries.clone();
    assert_eq!(waiters_once.len(), 1);
    assert_eq!(waiters_once[0].id, 9);
    assert_eq!(waiters_once[0].mask, ASYNC_EVENTS);
    f.SetFlags(&t, a);
    assert_eq!(f.Flags(), flags_once);
    assert_eq!(f.0.FileOp.pipe.queue.entries, waiters_once);
    assert_eq!(f.Flags().Settable(), a);
    assert!(f.Flags().Write);
}

#[test]
fn async_mode_registers_and_unregisters_the_owner() {
    let t = task();
    let mut uids = UniqueIdSource::New();
    let mut f = pipe_file(&mut uids, 16);
    let on = SettableFileFlags { Direct: false, NonBlocking: false, Append: false, Async: true };
    let off = SettableFileFlags { Direct: false, NonBlocking: false, Append: false, Async: false };
    // Without an owner, nothing is registered.
    f.SetFlags(&t, on);
    assert!(f.0.FileOp.pipe.queue.entries.is_empty());
    // An owner set in async mode is registered at once.
    let owner = FileAsync { e: WaitEntry::New(4) };
    assert_eq!(f.Async(&t, Some(owner)), Some(owner));
    assert_eq!(f.0.FileOp.pipe.queue.entries.len(), 1);
    f.SetFlags(&t, off);
    assert!(f.0.FileOp.pipe.queue.entries.is_empty());
    assert!(f.Blocking());
}

#[test]
fn async_twice_returns_the_same_owner_and_registers_once() {
    let t = task();
    let mut uids = UniqueIdSource::New();
    let mut f = pipe_file(&mut uids, 16);
    f.0.flags.Async = true;
    let x = FileAsync { e: WaitEntry::New(4) };
    let y = FileAsync { e: WaitEntry::New(5) };
    assert_eq!(f.Async(&t, None), None);
    assert_eq!(f.Async(&t, Some(x)), Some(x));
    assert_eq!(f.Async(&t, Some(y)), Some(x));
    assert_eq!(f.Async(&t, None), Some(x));
    assert_eq!(f.0.FileOp.pipe.queue.entries.len(), 1);
    assert_eq!(f.0.FileOp.pipe.queue.entries[0].id, 4);
}

#[test]
fn only_the_last_drop_cleans_up() {
    let t = task();
    let mut uids = UniqueIdSource::New();
    let mut f = pipe_file(&mut uids, 16);
    f.0.flags.Async = true;
    f.Async(&t, Some(FileAsync { e: WaitEntry::New(4) }));
    f.Retain();
    let lock = |owner| RegionLock { owner, start: 0, end: 10 };
    let mut locks = LockCtx {
        BSD: Locks { held: vec![lock(7), lock(8)] },
        Posix: Locks { held: vec![lock(8), lock(7), lock(7)] },
    };
    f.Drop(&t, 7, &mut locks);
    assert_eq!(f.0.refs, 1);
    assert_eq!(locks.BSD.held.len(), 2);
    assert!(f.0.asyncOwner.is_some());
    assert_eq!(f.0.FileOp.pipe.queue.entries.len(), 1);
    f.Drop(&t, 7, &mut locks);
    assert_eq!(f.0.refs, 0);
    assert_eq!(locks.BSD.held, vec![lock(8)]);
    assert_eq!(locks.Posix.held, vec![lock(8)]);
    assert!(f.0.asyncOwner.is_none());
    assert!(f.0.FileOp.pipe.queue.entries.is_empty());
}

#[test]
fn host_files() {
    let mut uids = UniqueIdSource::New();
    let d = dirent(InodeFileType::RegularFile, 1);
    let f = File::NewHostFile(&mut uids, &d, &flags(), NewSnapshotReadonlyFileOperations(vec![1]), false);
    assert!(f.Flags().Pread && f.Flags().PWrite);
    assert!(!f.WouldBlock());
    assert_eq!(f.FileType(), InodeFileType::RegularFile);
    assert_eq!(f.DeviceID(), 77);
    assert_eq!(f.InodeID(), 77);
    let f = File::NewHostFile(&mut uids, &d, &flags(), NewSnapshotReadonlyFileOperations(vec![1]), true);
    assert!(!f.Flags().Pread && !f.Flags().PWrite);
    assert_eq!(f.Mappable(), Err(Error::SysError(SysErr::ENODEV)));
}

#[test]
fn files_from_host_descriptors() {
    let mut uids = UniqueIdSource::New();
    let d = dirent(InodeFileType::CharacterDevice, 0);
    let ops = || NewSnapshotReadonlyFileOperations(vec![1, 2]);
    match File::NewFileFromFd(&mut uids, 0o140000 | 0o644, &flags(), &d, ops(), true) {
        Err(Error::Common(msg)) => assert_eq!(msg, "cannot import host socket as TTY"),
        _ => panic!("a socket was taken as a terminal"),
    }
    match File::NewFileFromFd(&mut uids, 0o020000 | 0o620, &flags(), &d, ops(), true) {
        Ok(HostFile::Tty(mut f)) => {
            assert_eq!(f.0.FileOp.FopsType(), FileOpsType::TTYFileOps);
            assert_eq!(f.UniqueId(), 1);
            let t = task();
            let mut dst = vec![0u8; 4];
            assert_eq!(f.Preadv(&t, &mut dst, 0), Ok(2));
            assert_eq!(&dst[..2], &[1, 2]);
        }
        _ => panic!("no terminal"),
    }
    match File::NewFileFromFd(&mut uids, 0o100000 | 0o644, &flags(), &d, ops(), false) {
        Ok(HostFile::Plain(f)) => {
            assert!(f.Flags().Pread);
            assert_eq!(f.UniqueId(), 2);
        }
        _ => panic!("no plain file"),
    }
}

#[test]
fn pipe_moves_bytes_in_order() {
    let mut p = Pipe::New(8);
    assert_eq!(p.Write(&[1, 2, 3, 4, 5]), Ok(5));
    assert_eq!(p.Write(&[6, 7, 8, 9]), Ok(3));
    assert_eq!(p.Write(&[9]), Err(Error::SysError(SysErr::EAGAIN)));
    assert_eq!(p.Write(&[]), Ok(0));
    assert_eq!(p.Queued(), 8);
    let mut dst = vec![0u8; 3];
    assert_eq!(p.Read(&mut dst), Ok(3));
    assert_eq!(dst, vec![1, 2, 3]);
    let mut dst = vec![0u8; 10];
    assert_eq!(p.Read(&mut dst), Ok(5));
    assert_eq!(&dst[..5], &[4, 5, 6, 7, 8]);
    assert_eq!(p.Read(&mut dst), Err(Error::SysError(SysErr::EAGAIN)));
    p.WClose();
    assert_eq!(p.Read(&mut dst), Ok(0));
    p.RClose();
    assert_eq!(p.Write(&[1]), Err(Error::SysError(32)));
}

#[test]
fn pipe_readiness() {
    let mut p = Pipe::New(2);
    assert_eq!(p.RWReadiness(), EVENT_OUT);
    p.Write(&[1]).unwrap();
    assert_eq!(p.RWReadiness(), EVENT_IN | EVENT_OUT);
    p.Write(&[2]).unwrap();
    assert_eq!(p.RWReadiness(), EVENT_IN);
    let t = task();
    let rw = ReaderWriter::New(p);
    assert_eq!(rw.Readiness(&t, EVENT_OUT), 0);
    assert_eq!(rw.Readiness(&t, EVENT_IN | EVENT_OUT), EVENT_IN);
    assert!(!rw.Seekable());
    assert_eq!(rw.FopsType(), FileOpsType::ReaderWriter);
}

#[test]
fn pipe_fionread() {
    let mut t = task();
    let d = dirent(InodeFileType::Pipe, 0);
    let mut rw = ReaderWriter::New(Pipe::New(1 << 33));
    assert_eq!(rw.WriteAt(&t, &d, &[7u8; 10], 0, true), Ok(10));
    assert_eq!(rw.Ioctl(&mut t, 3, FIONREAD, 0x2000), Ok(()));
    assert_eq!(t.mm.Find(0x2000), Some(StackValue::Word(10)));
    // More bytes than an i32 counts: the answer is cut off without notice.
    rw.pipe.buf = vec![0u8; i32::MAX as usize + 1];
    assert_eq!(rw.Ioctl(&mut t, 3, FIONREAD, 0x2000), Ok(()));
    assert_eq!(t.mm.Find(0x2000), Some(StackValue::Word(i32::MAX as u64)));
    assert_eq!(rw.Ioctl(&mut t, 3, FIONREAD, 0x20), Err(Error::SysError(SysErr::EFAULT)));
    assert_eq!(rw.Ioctl(&mut t, 3, 0x5401, 0x2000), Err(Error::SysError(SysErr::ENOTTY)));
}

#[test]
fn pipe_end_notifies_the_other_side() {
    let t = task();
    let d = dirent(InodeFileType::Pipe, 0);
    let mut rw = ReaderWriter::New(Pipe::New(16));
    rw.EventRegister(&t, &WaitEntry::New(1), EVENT_IN);
    rw.EventRegister(&t, &WaitEntry::New(2), EVENT_OUT);
    assert_eq!(rw.WriteAt(&t, &d, &[1, 2, 3], 99, true), Ok(3));
    assert_eq!(rw.pipe.queue.entries[0].triggered, EVENT_IN);
    assert_eq!(rw.pipe.queue.entries[1].triggered, 0);
    let mut dst = vec![0u8; 2];
    assert_eq!(rw.ReadAt(&t, &d, &mut dst, 99, true), Ok(2));
    assert_eq!(dst, vec![1, 2]);
    assert_eq!(rw.pipe.queue.entries[1].triggered, EVENT_OUT);
    assert_eq!(rw.Append(&t, &d, &[4]), Ok((1, 0)));
    assert_eq!(rw.Seek(&t, &d, SEEK_SET, 0, 0), Err(Error::SysError(SysErr::ESPIPE)));
    assert_eq!(rw.Fsync(&t, &d, 0, 0, SyncType::SyncAll), einval());
    assert_eq!(rw.Flush(&t, &d), Ok(()));
    rw.EventUnregister(&t, &WaitEntry::New(1));
    assert_eq!(rw.pipe.queue.entries.len(), 1);
}

#[test]
fn closing_a_pipe_end_wakes_everybody() {
    let t = task();
    let mut rw = ReaderWriter::New(Pipe::New(16));
    rw.EventRegister(&t, &WaitEntry::New(1), EVENT_IN);
    rw.EventRegister(&t, &WaitEntry::New(2), EVENT_OUT);
    rw.Close();
    assert_eq!(rw.pipe.readers, 0);
    assert_eq!(rw.pipe.writers, 0);
    assert_eq!(rw.pipe.queue.entries[0].triggered, EVENT_IN);
    assert_eq!(rw.pipe.queue.entries[1].triggered, EVENT_OUT);
}

#[test]
fn file_on_a_pipe_reads_and_writes_at_zero() {
    let t = task();
    let mut uids = UniqueIdSource::New();
    let mut f = pipe_file(&mut uids, 16);
    let mut reads = InitSingleton();
    assert_eq!(f.Writev(&t, &[1, 2, 3]), Ok(3));
    let mut dst = vec![0u8; 8];
    assert_eq!(f.Readv(&t, &mut reads, &mut dst), Ok(3));
    assert_eq!(f.Offset(&t), Ok(0));
    assert_eq!(reads.Value(), 0);
    assert_eq!(f.Readv(&t, &mut reads, &mut dst), Err(Error::SysError(SysErr::EAGAIN)));
    assert_eq!(f.Seek(&t, SEEK_SET, 0), Err(Error::SysError(SysErr::ESPIPE)));
    assert_eq!(f.Fsync(&t, 0, 0, SyncType::SyncBackingStorage), einval());
    assert_eq!(f.Readiness(&t, EVENT_IN | EVENT_OUT), EVENT_OUT);
}

#[test]
fn metric_counts() {
    let mut m = NewU64Metric("/test/count", true, "Counts for a test.");
    assert_eq!(m.name, "/test/count");
    assert!(m.sync);
    assert_eq!(m.description, "Counts for a test.");
    assert_eq!(m.Value(), 0);
    m.Incr();
    m.Incr();
    assert_eq!(m.Value(), 2);
    m.value = u64::MAX;
    m.Incr();
    assert_eq!(m.Value(), 0);
    assert_eq!(m.name, "/test/count");
}

#[test]
fn counter_of_file_reads() {
    let reads = InitSingleton();
    assert_eq!(reads.name, "/fs/reads");
    assert!(!reads.sync);
    assert_eq!(reads.description, "Number of file reads.");
    assert_eq!(reads.Value(), 0);
}

#[test]
fn readv_counts_in_the_counter_it_is_given() {
    let t = task();
    let mut uids = UniqueIdSource::New();
    let mut f = snapshot_file(&mut uids, &[1, 2, 3]);
    let mut reads = InitSingleton();
    let mut dst = vec![0u8; 1];
    f.Readv(&t, &mut reads, &mut dst).unwrap();
    assert_eq!(reads.Value(), 1);
    assert_eq!(reads.name, "/fs/reads");
    assert_eq!(reads.description, "Number of file reads.");
}
