//! Files that can be read and never written.

use vstd::prelude::*;
use crate::fs::attr::DentrySerializer;
use crate::fs::attr::DirCtx;
use crate::fs::attr::Dirent;
use crate::fs::attr::HostInodeOp;
use crate::fs::attr::UnstableAttr;
use crate::fs::file::FileOperations;
use crate::fs::file::FileOpsType;
use crate::fs::file::SockOperations;
use crate::fs::file::SpliceOperations;
use crate::fs::file::SyncType;
use crate::fs::file::Waitable;
use crate::fs::fsutil::file::seek::SeekTarget;
use crate::fs::fsutil::file::seek::SeekWithDirCursor;
use crate::kernel::waiter::WaitEntry;
use crate::qlib::common::Error;
use crate::qlib::common::SysErr;
use crate::qlib::linux_def::EventMask;
use crate::task::Task;
use crate::task::TaskView;

verus! {

/// What a read-only file reads from.
pub trait ReadonlyFileNode {
    /// What the node needs to hold of its own state.
    spec fn wf(&self) -> bool;

    /// The outcomes of `ReadAt`: `dst` is the buffer before, `filled` the
    /// buffer after.
    spec fn readPost(&self, dst: Seq<u8>, filled: Seq<u8>, offset: i64, r: Result<i64, Error>) -> bool;

    /// Reads into `dst`, from its start, what stands at `offset`.
    fn ReadAt(&self, task: &Task, d: &Dirent, dst: &mut Vec<u8>, offset: i64, blocking: bool) -> (r: Result<i64, Error>)
        requires
            self.wf(),
        ensures
            final(dst)@.len() == old(dst)@.len(),
            r matches Ok(n) ==> n <= old(dst)@.len(),
            self.readPost(old(dst)@, final(dst)@, offset, r),
    ;
}

/// A node that holds the whole content of its file.
pub struct SnapshotReadonlyFileNode {
    pub data: Vec<u8>,
}

/// How many bytes a read of `data` at `offset` into a buffer of `room`
/// bytes gives: what is left from `offset` on, as far as there is room.
pub open spec fn SnapshotCount(data: Seq<u8>, room: int, offset: i64) -> int {
    if offset < 0 || offset >= data.len() {
        0
    } else if data.len() - offset < room {
        data.len() - offset
    } else {
        room
    }
}

/// The buffer `dst` after a read of `data` at `offset`: the bytes read
/// stand at its start, the rest is as before.
pub open spec fn SnapshotFilled(data: Seq<u8>, dst: Seq<u8>, offset: i64) -> Seq<u8> {
    let n = SnapshotCount(data, dst.len() as int, offset);
    if n == 0 {
        dst
    } else {
        data.subrange(offset as int, offset + n) + dst.subrange(n, dst.len() as int)
    }
}

/// What a read of `data` at `offset` returns: `EINVAL` for a negative
/// offset, else the number of bytes read, which is 0 at or past the end.
pub open spec fn SnapshotRead(data: Seq<u8>, room: int, offset: i64) -> Result<i64, Error> {
    if offset < 0 {
        Err(Error::SysError(SysErr::EINVAL))
    } else {
        Ok(SnapshotCount(data, room, offset) as i64)
    }
}

impl ReadonlyFileNode for SnapshotReadonlyFileNode {
    open spec fn wf(&self) -> bool {
        self.data@.len() <= i64::MAX
    }

    open spec fn readPost(&self, dst: Seq<u8>, filled: Seq<u8>, offset: i64, r: Result<i64, Error>) -> bool {
        r == SnapshotRead(self.data@, dst.len() as int, offset) && filled == SnapshotFilled(self.data@, dst, offset)
    }

    fn ReadAt(&self, task: &Task, d: &Dirent, dst: &mut Vec<u8>, offset: i64, blocking: bool) -> (r: Result<i64, Error>) {
        if offset < 0 {
            return Err(Error::SysError(SysErr::EINVAL));
        }
        let len = self.data.len();
        if offset as u64 >= len as u64 {
            return Ok(0);
        }
        let start = offset as usize;
        let left = len - start;
        let n = if left < dst.len() {
            left
        } else {
            dst.len()
        };
        let mut k: usize = 0;
        while k < n
            invariant
                k <= n,
                n <= dst@.len(),
                len == self.data@.len(),
                len <= i64::MAX,
                start + n <= len,
                dst@.len() == old(dst)@.len(),
                forall|j: int| 0 <= j < k ==> dst@[j] == self.data@[start + j],
                forall|j: int| k <= j < dst@.len() ==> dst@[j] == old(dst)@[j],
            decreases n - k,
        {
            dst[k] = self.data[start + k];
            k = k + 1;
        }
        proof {
            if n > 0 {
                assert(dst@ =~= SnapshotFilled(self.data@, old(dst)@, offset));
            } else {
                assert(dst@ =~= old(dst)@);
            }
        }
        Ok(n as i64)
    }
}

/// The operations of a file that reads from a node and refuses every
/// write.
pub struct ReadonlyFileOperations<T: ReadonlyFileNode> {
    pub node: T,
}

/// The operations of a read-only file that holds `data`.
pub fn NewSnapshotReadonlyFileOperations(data: Vec<u8>) -> (r: ReadonlyFileOperations<SnapshotReadonlyFileNode>)
    requires
        data@.len() <= i64::MAX,
    ensures
        r.node.data@ == data@,
        r.wf(),
{
    let node = SnapshotReadonlyFileNode { data };
    ReadonlyFileOperations { node }
}

impl<T: ReadonlyFileNode> Waitable for ReadonlyFileOperations<T> {
    /// Always ready for whatever is asked.
    open spec fn readiness(&self, mask: EventMask) -> EventMask {
        mask
    }

    open spec fn registered(&self, after: &Self, e: WaitEntry, mask: EventMask) -> bool {
        *after == *self
    }

    open spec fn unregistered(&self, after: &Self, e: WaitEntry) -> bool {
        *after == *self
    }

    fn Readiness(&self, task: &Task, mask: EventMask) -> (r: EventMask) {
        mask
    }

    fn EventRegister(&mut self, task: &Task, e: &WaitEntry, mask: EventMask) {
    }

    fn EventUnregister(&mut self, task: &Task, e: &WaitEntry) {
    }
}

impl<T: ReadonlyFileNode> SpliceOperations for ReadonlyFileOperations<T> {

}

impl<T: ReadonlyFileNode> SockOperations for ReadonlyFileOperations<T> {

}

impl<T: ReadonlyFileNode> FileOperations for ReadonlyFileOperations<T> {
    open spec fn wf(&self) -> bool {
        self.node.wf()
    }

    open spec fn seekable(&self) -> bool {
        true
    }

    open spec fn kind(&self) -> FileOpsType {
        FileOpsType::ReadonlyFileOperations
    }

    open spec fn seekPost(&self, after: &Self, d: Dirent, whence: i32, current: i64, offset: i64, r: Result<i64, Error>) -> bool {
        *after == *self && r == SeekTarget(d, whence, current, offset)
    }

    open spec fn readDirPost(&self, after: &Self, d: Dirent, offset: i64, r: Result<i64, Error>) -> bool {
        *after == *self && r == Err::<i64, Error>(Error::SysError(SysErr::ENOTDIR))
    }

    open spec fn readAtPost(
        &self,
        after: &Self,
        d: Dirent,
        dst: Seq<u8>,
        filled: Seq<u8>,
        offset: i64,
        blocking: bool,
        r: Result<i64, Error>,
    ) -> bool {
        *after == *self && self.node.readPost(dst, filled, offset, r)
    }

    open spec fn writeAtPost(&self, after: &Self, d: Dirent, src: Seq<u8>, offset: i64, blocking: bool, r: Result<i64, Error>) -> bool {
        *after == *self && r == Err::<i64, Error>(Error::SysError(SysErr::EINVAL))
    }

    open spec fn appendPost(&self, after: &Self, d: Dirent, src: Seq<u8>, r: Result<(i64, i64), Error>) -> bool {
        *after == *self && r == Err::<(i64, i64), Error>(Error::SysError(SysErr::EINVAL))
    }

    open spec fn fsyncPost(&self, after: &Self, d: Dirent, start: i64, end: i64, syncType: SyncType, r: Result<(), Error>) -> bool {
        *after == *self && r == Ok::<(), Error>(())
    }

    open spec fn flushPost(&self, after: &Self, d: Dirent, r: Result<(), Error>) -> bool {
        *after == *self && r == Ok::<(), Error>(())
    }

    open spec fn unstableAttrPost(&self, d: Dirent, r: Result<UnstableAttr, Error>) -> bool {
        r == Ok::<UnstableAttr, Error>(d.Inode.Attr)
    }

    open spec fn ioctlPost(
        &self,
        after: &Self,
        task: TaskView,
        done: TaskView,
        fd: i32,
        request: u64,
        val: u64,
        r: Result<(), Error>,
    ) -> bool {
        *after == *self && done == task && r == Err::<(), Error>(Error::SysError(SysErr::ENOTTY))
    }

    open spec fn iterateDirPost(&self, after: &Self, d: Dirent, offset: i32, r: (i32, Result<i64, Error>)) -> bool {
        *after == *self && r == (0i32, Err::<i64, Error>(Error::SysError(SysErr::ENOTDIR)))
    }

    open spec fn mappablePost(&self, r: Result<HostInodeOp, Error>) -> bool {
        r == Err::<HostInodeOp, Error>(Error::SysError(SysErr::ENODEV))
    }

    fn FopsType(&self) -> (r: FileOpsType) {
        FileOpsType::ReadonlyFileOperations
    }

    fn Seekable(&self) -> (r: bool) {
        true
    }

    fn Seek(&mut self, task: &Task, d: &Dirent, whence: i32, current: i64, offset: i64) -> (r: Result<i64, Error>) {
        SeekWithDirCursor(d, whence, current, offset)
    }

    fn ReadDir(&mut self, task: &Task, d: &Dirent, offset: i64, serializer: &mut DentrySerializer) -> (r: Result<
        i64,
        Error,
    >) {
        Err(Error::SysError(SysErr::ENOTDIR))
    }

    fn ReadAt(&mut self, task: &Task, d: &Dirent, dst: &mut Vec<u8>, offset: i64, blocking: bool) -> (r: Result<
        i64,
        Error,
    >) {
        self.node.ReadAt(task, d, dst, offset, blocking)
    }

    fn WriteAt(&mut self, task: &Task, d: &Dirent, src: &[u8], offset: i64, blocking: bool) -> (r: Result<i64, Error>) {
        Err(Error::SysError(SysErr::EINVAL))
    }

    fn Append(&mut self, task: &Task, d: &Dirent, src: &[u8]) -> (r: Result<(i64, i64), Error>) {
        let n = self.WriteAt(task, d, src, 0, false)?;
        Ok((n, 0))
    }

    fn Fsync(&mut self, task: &Task, d: &Dirent, start: i64, end: i64, syncType: SyncType) -> (r: Result<(), Error>) {
        Ok(())
    }

    fn Flush(&mut self, task: &Task, d: &Dirent) -> (r: Result<(), Error>) {
        Ok(())
    }

    fn UnstableAttr(&self, task: &Task, d: &Dirent) -> (r: Result<UnstableAttr, Error>) {
        Ok(d.Inode.Attr)
    }

    fn Ioctl(&mut self, task: &mut Task, fd: i32, request: u64, val: u64) -> (r: Result<(), Error>) {
        Err(Error::SysError(SysErr::ENOTTY))
    }

    fn IterateDir(&mut self, task: &Task, d: &Dirent, dirCtx: &mut DirCtx, offset: i32) -> (r: (i32, Result<i64, Error>)) {
        (0, Err(Error::SysError(SysErr::ENOTDIR)))
    }

    fn Mappable(&self) -> (r: Result<HostInodeOp, Error>) {
        Err(Error::SysError(SysErr::ENODEV))
    }
}

} // verus!
