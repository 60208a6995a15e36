//! The operations of a terminal of the host, layered over the operations
//! of the host file behind it.

use vstd::prelude::*;
use crate::fs::attr::DentrySerializer;
use crate::fs::attr::DirCtx;
use crate::fs::attr::Dirent;
use crate::fs::attr::HostInodeOp;
use crate::fs::attr::UnstableAttr;
use crate::fs::file::FileOperations;
use crate::fs::file::FileOpsType;
use crate::fs::file::SockOperations;
use crate::fs::file::SpliceOperations;
use crate::fs::file::SyncType;
use crate::fs::file::Waitable;
use crate::kernel::waiter::WaitEntry;
use crate::qlib::common::Error;
use crate::qlib::linux_def::EventMask;
use crate::task::Task;
use crate::task::TaskView;

verus! {

/// The operations of a terminal. Every operation is that of the host file
/// behind the terminal; the terminal adds the process group that is in
/// its foreground.
pub struct TTYFileOps<H: FileOperations> {
    pub fileOps: H,
    /// The process group in the foreground; 0 while there is none.
    pub fgProcessGroup: i32,
}

impl<H: FileOperations> TTYFileOps<H> {
    /// A terminal over the host file operations `fops`, without a process
    /// group in its foreground.
    pub fn New(fops: H) -> (r: Self)
        requires
            fops.wf(),
        ensures
            r.fileOps == fops,
            r.fgProcessGroup == 0,
            r.wf(),
    {
        TTYFileOps { fileOps: fops, fgProcessGroup: 0 }
    }
}

impl<H: FileOperations> Waitable for TTYFileOps<H> {
    open spec fn readiness(&self, mask: EventMask) -> EventMask {
        self.fileOps.readiness(mask)
    }

    open spec fn registered(&self, after: &Self, e: WaitEntry, mask: EventMask) -> bool {
        after.fgProcessGroup == self.fgProcessGroup && self.fileOps.registered(&after.fileOps, e, mask)
    }

    open spec fn unregistered(&self, after: &Self, e: WaitEntry) -> bool {
        after.fgProcessGroup == self.fgProcessGroup && self.fileOps.unregistered(&after.fileOps, e)
    }

    fn Readiness(&self, task: &Task, mask: EventMask) -> (r: EventMask) {
        self.fileOps.Readiness(task, mask)
    }

    fn EventRegister(&mut self, task: &Task, e: &WaitEntry, mask: EventMask) {
        self.fileOps.EventRegister(task, e, mask);
    }

    fn EventUnregister(&mut self, task: &Task, e: &WaitEntry) {
        self.fileOps.EventUnregister(task, e);
    }
}

impl<H: FileOperations> SpliceOperations for TTYFileOps<H> {

}

impl<H: FileOperations> SockOperations for TTYFileOps<H> {

}

impl<H: FileOperations> FileOperations for TTYFileOps<H> {
    open spec fn wf(&self) -> bool {
        self.fileOps.wf()
    }

    open spec fn seekable(&self) -> bool {
        self.fileOps.seekable()
    }

    open spec fn kind(&self) -> FileOpsType {
        FileOpsType::TTYFileOps
    }

    open spec fn seekPost(&self, after: &Self, d: Dirent, whence: i32, current: i64, offset: i64, r: Result<i64, Error>) -> bool {
        after.fgProcessGroup == self.fgProcessGroup && self.fileOps.seekPost(
            &after.fileOps,
            d,
            whence,
            current,
            offset,
            r,
        )
    }

    open spec fn readDirPost(&self, after: &Self, d: Dirent, offset: i64, r: Result<i64, Error>) -> bool {
        after.fgProcessGroup == self.fgProcessGroup && self.fileOps.readDirPost(&after.fileOps, d, offset, r)
    }

    open spec fn readAtPost(
        &self,
        after: &Self,
        d: Dirent,
        dst: Seq<u8>,
        filled: Seq<u8>,
        offset: i64,
        blocking: bool,
        r: Result<i64, Error>,
    ) -> bool {
        after.fgProcessGroup == self.fgProcessGroup && self.fileOps.readAtPost(
            &after.fileOps,
            d,
            dst,
            filled,
            offset,
            blocking,
            r,
        )
    }

    open spec fn writeAtPost(&self, after: &Self, d: Dirent, src: Seq<u8>, offset: i64, blocking: bool, r: Result<i64, Error>) -> bool {
        after.fgProcessGroup == self.fgProcessGroup && self.fileOps.writeAtPost(
            &after.fileOps,
            d,
            src,
            offset,
            blocking,
            r,
        )
    }

    open spec fn appendPost(&self, after: &Self, d: Dirent, src: Seq<u8>, r: Result<(i64, i64), Error>) -> bool {
        after.fgProcessGroup == self.fgProcessGroup && self.fileOps.appendPost(&after.fileOps, d, src, r)
    }

    open spec fn fsyncPost(&self, after: &Self, d: Dirent, start: i64, end: i64, syncType: SyncType, r: Result<(), Error>) -> bool {
        after.fgProcessGroup == self.fgProcessGroup && self.fileOps.fsyncPost(
            &after.fileOps,
            d,
            start,
            end,
            syncType,
            r,
        )
    }

    open spec fn flushPost(&self, after: &Self, d: Dirent, r: Result<(), Error>) -> bool {
        after.fgProcessGroup == self.fgProcessGroup && self.fileOps.flushPost(&after.fileOps, d, r)
    }

    open spec fn unstableAttrPost(&self, d: Dirent, r: Result<UnstableAttr, Error>) -> bool {
        self.fileOps.unstableAttrPost(d, r)
    }

    open spec fn ioctlPost(
        &self,
        after: &Self,
        task: TaskView,
        done: TaskView,
        fd: i32,
        request: u64,
        val: u64,
        r: Result<(), Error>,
    ) -> bool {
        after.fgProcessGroup == self.fgProcessGroup && self.fileOps.ioctlPost(
            &after.fileOps,
            task,
            done,
            fd,
            request,
            val,
            r,
        )
    }

    open spec fn iterateDirPost(&self, after: &Self, d: Dirent, offset: i32, r: (i32, Result<i64, Error>)) -> bool {
        after.fgProcessGroup == self.fgProcessGroup && self.fileOps.iterateDirPost(&after.fileOps, d, offset, r)
    }

    open spec fn mappablePost(&self, r: Result<HostInodeOp, Error>) -> bool {
        self.fileOps.mappablePost(r)
    }

    fn FopsType(&self) -> (r: FileOpsType) {
        FileOpsType::TTYFileOps
    }

    fn Seekable(&self) -> (r: bool) {
        self.fileOps.Seekable()
    }

    fn Seek(&mut self, task: &Task, d: &Dirent, whence: i32, current: i64, offset: i64) -> (r: Result<i64, Error>) {
        self.fileOps.Seek(task, d, whence, current, offset)
    }

    fn ReadDir(&mut self, task: &Task, d: &Dirent, offset: i64, serializer: &mut DentrySerializer) -> (r: Result<
        i64,
        Error,
    >) {
        self.fileOps.ReadDir(task, d, offset, serializer)
    }

    fn ReadAt(&mut self, task: &Task, d: &Dirent, dst: &mut Vec<u8>, offset: i64, blocking: bool) -> (r: Result<
        i64,
        Error,
    >) {
        self.fileOps.ReadAt(task, d, dst, offset, blocking)
    }

    fn WriteAt(&mut self, task: &Task, d: &Dirent, src: &[u8], offset: i64, blocking: bool) -> (r: Result<i64, Error>) {
        self.fileOps.WriteAt(task, d, src, offset, blocking)
    }

    fn Append(&mut self, task: &Task, d: &Dirent, src: &[u8]) -> (r: Result<(i64, i64), Error>) {
        self.fileOps.Append(task, d, src)
    }

    fn Fsync(&mut self, task: &Task, d: &Dirent, start: i64, end: i64, syncType: SyncType) -> (r: Result<(), Error>) {
        self.fileOps.Fsync(task, d, start, end, syncType)
    }

    fn Flush(&mut self, task: &Task, d: &Dirent) -> (r: Result<(), Error>) {
        self.fileOps.Flush(task, d)
    }

    fn UnstableAttr(&self, task: &Task, d: &Dirent) -> (r: Result<UnstableAttr, Error>) {
        self.fileOps.UnstableAttr(task, d)
    }

    fn Ioctl(&mut self, task: &mut Task, fd: i32, request: u64, val: u64) -> (r: Result<(), Error>) {
        self.fileOps.Ioctl(task, fd, request, val)
    }

    fn IterateDir(&mut self, task: &Task, d: &Dirent, dirCtx: &mut DirCtx, offset: i32) -> (r: (i32, Result<i64, Error>)) {
        self.fileOps.IterateDir(task, d, dirCtx, offset)
    }

    fn Mappable(&self) -> (r: Result<HostInodeOp, Error>) {
        self.fileOps.Mappable()
    }
}

} // verus!
