//! The end of a pipe that both reads and writes.

use vstd::prelude::*;
use crate::fs::attr::DentrySerializer;
use crate::fs::attr::DirCtx;
use crate::fs::attr::Dirent;
use crate::fs::attr::HostInodeOp;
use crate::fs::attr::UnstableAttr;
use crate::fs::file::FileOperations;
use crate::fs::file::FileOpsType;
use crate::fs::file::SockOperations;
use crate::fs::file::SpliceOperations;
use crate::fs::file::SyncType;
use crate::fs::file::Waitable;
use crate::kernel::pipe::pipe::Pipe;
use crate::kernel::pipe::pipe::PipeView;
use crate::kernel::waiter::WaitEntry;
use crate::kernel::waiter::Without;
use crate::qlib::common::Error;
use crate::qlib::common::SysErr;
use crate::qlib::linux_def::EVENT_IN;
use crate::qlib::linux_def::EVENT_OUT;
use crate::qlib::linux_def::EventMask;
use crate::stack::StackValue;
use crate::task::Task;
use crate::task::TaskView;

verus! {

/// The request that asks how many bytes can be read.
pub const FIONREAD: u64 = 0x541b;

/// The operations of a pipe end open for reading and writing.
pub struct ReaderWriter {
    pub pipe: Pipe,
}

/// What `FIONREAD` reports for `queued` waiting bytes: their number, but
/// no more than the greatest `i32`.
pub open spec fn Readable(queued: int) -> u64 {
    if queued > i32::MAX {
        i32::MAX as u64
    } else {
        queued as u64
    }
}

/// A byte count as a file operation returns it.
pub open spec fn Count(r: Result<usize, Error>) -> Result<i64, Error> {
    match r {
        Ok(n) => Ok(n as i64),
        Err(e) => Err(e),
    }
}

impl ReaderWriter {
    /// The pipe after a read into a buffer of `room` bytes through this
    /// end: waiting writers hear of the room made, if any was made.
    pub open spec fn pipeAfterRead(p: PipeView, room: int) -> PipeView {
        if p.readResult(room) is Ok && p.readCount(room) > 0 {
            p.afterRead(room).notified(EVENT_OUT)
        } else {
            p.afterRead(room)
        }
    }

    /// The pipe after a write of `src` through this end: waiting readers
    /// hear of the data, if any was written.
    pub open spec fn pipeAfterWrite(p: PipeView, src: Seq<u8>) -> PipeView {
        if p.writeResult(src.len() as int) is Err {
            p
        } else if p.writeCount(src.len() as int) > 0 {
            p.afterWrite(src).notified(EVENT_IN)
        } else {
            p.afterWrite(src)
        }
    }

    /// An end of `pipe`.
    pub fn New(pipe: Pipe) -> (r: ReaderWriter)
        ensures
            r.pipe == pipe,
    {
        ReaderWriter { pipe }
    }

    /// Closes the end for reading and for writing, and wakes the readers
    /// and writers that wait on the pipe.
    pub fn Close(&mut self)
        ensures
            final(self).pipe@ == old(self).pipe@.closed().notified(EVENT_IN | EVENT_OUT),
    {
        self.pipe.RClose();
        self.pipe.WClose();
        self.pipe.Notify(EVENT_IN | EVENT_OUT);
    }
}

impl Waitable for ReaderWriter {
    open spec fn readiness(&self, mask: EventMask) -> EventMask {
        self.pipe@.rwReadiness() & mask
    }

    open spec fn registered(&self, after: &Self, e: WaitEntry, mask: EventMask) -> bool {
        after.pipe@ == (PipeView {
            queue: self.pipe@.queue.push(WaitEntry { id: e.id, mask, triggered: 0 }),
            ..self.pipe@
        })
    }

    open spec fn unregistered(&self, after: &Self, e: WaitEntry) -> bool {
        after.pipe@ == (PipeView { queue: Without(self.pipe@.queue, e.id), ..self.pipe@ })
    }

    fn Readiness(&self, task: &Task, mask: EventMask) -> (r: EventMask) {
        self.pipe.RWReadiness() & mask
    }

    fn EventRegister(&mut self, task: &Task, e: &WaitEntry, mask: EventMask) {
        self.pipe.queue.EventRegister(e, mask);
    }

    fn EventUnregister(&mut self, task: &Task, e: &WaitEntry) {
        self.pipe.queue.EventUnregister(e);
    }
}

impl SpliceOperations for ReaderWriter {

}

impl SockOperations for ReaderWriter {

}

impl FileOperations for ReaderWriter {
    open spec fn wf(&self) -> bool {
        self.pipe@.wf()
    }

    open spec fn seekable(&self) -> bool {
        false
    }

    open spec fn kind(&self) -> FileOpsType {
        FileOpsType::ReaderWriter
    }

    open spec fn seekPost(&self, after: &Self, d: Dirent, whence: i32, current: i64, offset: i64, r: Result<i64, Error>) -> bool {
        *after == *self && r == Err::<i64, Error>(Error::SysError(SysErr::ESPIPE))
    }

    open spec fn readDirPost(&self, after: &Self, d: Dirent, offset: i64, r: Result<i64, Error>) -> bool {
        *after == *self && r == Err::<i64, Error>(Error::SysError(SysErr::ENOTDIR))
    }

    /// The oldest bytes of the pipe go to the buffer, wherever the read is
    /// said to take place.
    open spec fn readAtPost(
        &self,
        after: &Self,
        d: Dirent,
        dst: Seq<u8>,
        filled: Seq<u8>,
        offset: i64,
        blocking: bool,
        r: Result<i64, Error>,
    ) -> bool {
        &&& r == Count(self.pipe@.readResult(dst.len() as int))
        &&& after.pipe@ == ReaderWriter::pipeAfterRead(self.pipe@, dst.len() as int)
        &&& filled == self.pipe@.filled(dst)
    }

    /// The bytes go to the end of the pipe, wherever the write is said to
    /// take place.
    open spec fn writeAtPost(&self, after: &Self, d: Dirent, src: Seq<u8>, offset: i64, blocking: bool, r: Result<i64, Error>) -> bool {
        &&& r == Count(self.pipe@.writeResult(src.len() as int))
        &&& after.pipe@ == ReaderWriter::pipeAfterWrite(self.pipe@, src)
    }

    /// As a write; a pipe has no length to report.
    open spec fn appendPost(&self, after: &Self, d: Dirent, src: Seq<u8>, r: Result<(i64, i64), Error>) -> bool {
        &&& after.pipe@ == ReaderWriter::pipeAfterWrite(self.pipe@, src)
        &&& r == match self.pipe@.writeResult(src.len() as int) {
            Ok(n) => Ok::<(i64, i64), Error>((n as i64, 0i64)),
            Err(e) => Err::<(i64, i64), Error>(e),
        }
    }

    open spec fn fsyncPost(&self, after: &Self, d: Dirent, start: i64, end: i64, syncType: SyncType, r: Result<(), Error>) -> bool {
        *after == *self && r == Err::<(), Error>(Error::SysError(SysErr::EINVAL))
    }

    open spec fn flushPost(&self, after: &Self, d: Dirent, r: Result<(), Error>) -> bool {
        *after == *self && r == Ok::<(), Error>(())
    }

    open spec fn unstableAttrPost(&self, d: Dirent, r: Result<UnstableAttr, Error>) -> bool {
        r == Ok::<UnstableAttr, Error>(d.Inode.Attr)
    }

    /// `FIONREAD` writes the number of waiting bytes, capped, as a word at
    /// the address `val`; any other request is `ENOTTY`.
    open spec fn ioctlPost(
        &self,
        after: &Self,
        task: TaskView,
        done: TaskView,
        fd: i32,
        request: u64,
        val: u64,
        r: Result<(), Error>,
    ) -> bool {
        let word = StackValue::Word(Readable(self.pipe@.buf.len() as int));
        &&& *after == *self
        &&& if request == FIONREAD {
            &&& done == (TaskView { mm: task.mm.written(val, word), ..task })
            &&& r == if task.mm.mapped(val as int, 8) {
                Ok::<(), Error>(())
            } else {
                Err::<(), Error>(Error::SysError(SysErr::EFAULT))
            }
        } else {
            done == task && r == Err::<(), Error>(Error::SysError(SysErr::ENOTTY))
        }
    }

    open spec fn iterateDirPost(&self, after: &Self, d: Dirent, offset: i32, r: (i32, Result<i64, Error>)) -> bool {
        *after == *self && r == (0i32, Err::<i64, Error>(Error::SysError(SysErr::ENOTDIR)))
    }

    open spec fn mappablePost(&self, r: Result<HostInodeOp, Error>) -> bool {
        r == Err::<HostInodeOp, Error>(Error::SysError(SysErr::ENODEV))
    }

    fn FopsType(&self) -> (r: FileOpsType) {
        FileOpsType::ReaderWriter
    }

    fn Seekable(&self) -> (r: bool) {
        false
    }

    fn Seek(&mut self, task: &Task, d: &Dirent, whence: i32, current: i64, offset: i64) -> (r: Result<i64, Error>) {
        Err(Error::SysError(SysErr::ESPIPE))
    }

    fn ReadDir(&mut self, task: &Task, d: &Dirent, offset: i64, serializer: &mut DentrySerializer) -> (r: Result<
        i64,
        Error,
    >) {
        Err(Error::SysError(SysErr::ENOTDIR))
    }

    fn ReadAt(&mut self, task: &Task, d: &Dirent, dst: &mut Vec<u8>, offset: i64, blocking: bool) -> (r: Result<
        i64,
        Error,
    >) {
        let n = self.pipe.Read(dst)?;
        if n > 0 {
            self.pipe.Notify(EVENT_OUT);
        }
        Ok(n as i64)
    }

    fn WriteAt(&mut self, task: &Task, d: &Dirent, src: &[u8], offset: i64, blocking: bool) -> (r: Result<i64, Error>) {
        let n = self.pipe.Write(src)?;
        if n > 0 {
            self.pipe.Notify(EVENT_IN);
        }
        Ok(n as i64)
    }

    fn Append(&mut self, task: &Task, d: &Dirent, src: &[u8]) -> (r: Result<(i64, i64), Error>) {
        let n = self.WriteAt(task, d, src, 0, false)?;
        Ok((n, 0))
    }

    fn Fsync(&mut self, task: &Task, d: &Dirent, start: i64, end: i64, syncType: SyncType) -> (r: Result<(), Error>) {
        Err(Error::SysError(SysErr::EINVAL))
    }

    fn Flush(&mut self, task: &Task, d: &Dirent) -> (r: Result<(), Error>) {
        Ok(())
    }

    fn UnstableAttr(&self, task: &Task, d: &Dirent) -> (r: Result<UnstableAttr, Error>) {
        Ok(d.Inode.Attr)
    }

    fn Ioctl(&mut self, task: &mut Task, fd: i32, request: u64, val: u64) -> (r: Result<(), Error>) {
        if request == FIONREAD {
            let mut v = self.pipe.Queued();
            if v > i32::MAX as usize {
                // Silently truncate.
                v = i32::MAX as usize;
            }
            task.mm.CopyOutObj(StackValue::Word(v as u64), val)?;
            return Ok(());
        }
        Err(Error::SysError(SysErr::ENOTTY))
    }

    fn IterateDir(&mut self, task: &Task, d: &Dirent, dirCtx: &mut DirCtx, offset: i32) -> (r: (i32, Result<i64, Error>)) {
        (0, Err(Error::SysError(SysErr::ENOTDIR)))
    }

    fn Mappable(&self) -> (r: Result<HostInodeOp, Error>) {
        Err(Error::SysError(SysErr::ENODEV))
    }
}

} // verus!
