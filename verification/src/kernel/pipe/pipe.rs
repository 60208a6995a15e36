//! A pipe: a bounded queue of bytes between writers and readers.

use vstd::prelude::*;
use crate::kernel::waiter::NotifyAll;
use crate::kernel::waiter::Queue;
use crate::kernel::waiter::WaitEntry;
use crate::qlib::common::Error;
use crate::qlib::common::SysErr;
use crate::qlib::linux_def::EVENT_IN;
use crate::qlib::linux_def::EVENT_OUT;
use crate::qlib::linux_def::EventMask;

verus! {

/// Bytes that a pipe holds unless it is made for another size.
pub const DEFAULT_PIPE_SIZE: usize = 65536;

/// `EPIPE`: a write to a pipe that nobody reads.
pub const EPIPE: i32 = 32;

/// A pipe.
pub struct Pipe {
    /// The bytes written and not yet read, oldest first.
    pub buf: Vec<u8>,
    /// The most bytes that the pipe holds.
    pub max: usize,
    /// How many ends are open for reading.
    pub readers: i32,
    /// How many ends are open for writing.
    pub writers: i32,
    /// Who waits for the pipe to become readable or writable.
    pub queue: Queue,
}

/// A `Pipe` as a value.
pub struct PipeView {
    pub buf: Seq<u8>,
    pub max: usize,
    pub readers: i32,
    pub writers: i32,
    pub queue: Seq<WaitEntry>,
}

impl View for Pipe {
    type V = PipeView;

    open spec fn view(&self) -> PipeView {
        PipeView {
            buf: self.buf@,
            max: self.max,
            readers: self.readers,
            writers: self.writers,
            queue: self.queue@,
        }
    }
}

/// The smaller of two numbers.
pub open spec fn Least(a: int, b: int) -> int {
    if a < b {
        a
    } else {
        b
    }
}

impl PipeView {
    /// The pipe holds no more than it may, and that fits an offset.
    pub open spec fn wf(self) -> bool {
        self.buf.len() <= self.max && self.max <= i64::MAX
    }

    /// How many bytes a read into a buffer of `room` bytes takes.
    pub open spec fn readCount(self, room: int) -> int {
        Least(room, self.buf.len() as int)
    }

    /// What a read into a buffer of `room` bytes returns: `EAGAIN` from an
    /// empty pipe that still has a writer, else the number of bytes read,
    /// which is 0 at the end of the data.
    pub open spec fn readResult(self, room: int) -> Result<usize, Error> {
        if self.buf.len() == 0 && self.writers != 0 {
            Err(Error::SysError(SysErr::EAGAIN))
        } else {
            Ok(self.readCount(room) as usize)
        }
    }

    /// The pipe after a read into a buffer of `room` bytes.
    pub open spec fn afterRead(self, room: int) -> PipeView {
        PipeView { buf: self.buf.subrange(self.readCount(room), self.buf.len() as int), ..self }
    }

    /// The buffer `dst` after a read: the bytes read stand at its start.
    pub open spec fn filled(self, dst: Seq<u8>) -> Seq<u8> {
        let n = self.readCount(dst.len() as int);
        self.buf.subrange(0, n) + dst.subrange(n, dst.len() as int)
    }

    /// How many of `len` bytes a write takes: as many as there is room for.
    pub open spec fn writeCount(self, len: int) -> int {
        Least(len, self.max - self.buf.len())
    }

    /// What a write of `len` bytes returns: `EPIPE` without a reader,
    /// `EAGAIN` if there are bytes to write and no room, else the number
    /// of bytes written.
    pub open spec fn writeResult(self, len: int) -> Result<usize, Error> {
        if self.readers == 0 {
            Err(Error::SysError(EPIPE))
        } else if len > 0 && self.buf.len() == self.max {
            Err(Error::SysError(SysErr::EAGAIN))
        } else {
            Ok(self.writeCount(len) as usize)
        }
    }

    /// The pipe after a write of `src`.
    pub open spec fn afterWrite(self, src: Seq<u8>) -> PipeView {
        if self.readers == 0 {
            self
        } else {
            PipeView { buf: self.buf + src.subrange(0, self.writeCount(src.len() as int)), ..self }
        }
    }

    /// The events that are ready: reading if the pipe holds data or has no
    /// writer, writing if it has room or has no reader.
    pub open spec fn rwReadiness(self) -> EventMask {
        (if self.buf.len() > 0 || self.writers == 0 {
            EVENT_IN
        } else {
            0
        }) | (if self.buf.len() < self.max || self.readers == 0 {
            EVENT_OUT
        } else {
            0
        })
    }

    /// The pipe with `mask` notified to its waiters.
    pub open spec fn notified(self, mask: EventMask) -> PipeView {
        PipeView { queue: NotifyAll(self.queue, mask), ..self }
    }

    /// The pipe with one end closed for reading and one for writing.
    pub open spec fn closed(self) -> PipeView {
        PipeView {
            readers: if self.readers > 0 {
                (self.readers - 1) as i32
            } else {
                self.readers
            },
            writers: if self.writers > 0 {
                (self.writers - 1) as i32
            } else {
                self.writers
            },
            ..self
        }
    }
}

impl Pipe {
    /// An empty pipe for `max` bytes with one reader and one writer.
    pub fn New(max: usize) -> (r: Pipe)
        requires
            max <= i64::MAX,
        ensures
            r@ == (PipeView { buf: Seq::empty(), max, readers: 1, writers: 1, queue: Seq::empty() }),
            r@.wf(),
    {
        Pipe { buf: Vec::new(), max, readers: 1, writers: 1, queue: Queue::New() }
    }

    /// Takes the oldest bytes of the pipe into `dst`, as many as `dst`
    /// takes.
    pub fn Read(&mut self, dst: &mut Vec<u8>) -> (r: Result<usize, Error>)
        requires
            old(self)@.wf(),
        ensures
            r == old(self)@.readResult(old(dst)@.len() as int),
            final(self)@ == old(self)@.afterRead(old(dst)@.len() as int),
            final(dst)@ == old(self)@.filled(old(dst)@),
            final(self)@.wf(),
    {
        let have = self.buf.len();
        if have == 0 {
            proof {
                assert(self@.buf =~= self@.afterRead(dst@.len() as int).buf);
                assert(dst@ =~= self@.filled(dst@));
            }
            if self.writers != 0 {
                return Err(Error::SysError(SysErr::EAGAIN));
            }
            return Ok(0);
        }
        let n = if dst.len() < have {
            dst.len()
        } else {
            have
        };
        let mut k: usize = 0;
        while k < n
            invariant
                k <= n,
                n <= dst@.len(),
                n <= self.buf@.len(),
                self.buf@ == old(self).buf@,
                dst@.len() == old(dst)@.len(),
                forall|j: int| 0 <= j < k ==> dst@[j] == self.buf@[j],
                forall|j: int| k <= j < dst@.len() ==> dst@[j] == old(dst)@[j],
            decreases n - k,
        {
            dst[k] = self.buf[k];
            k = k + 1;
        }
        let rest = self.buf.split_off(n);
        self.buf = rest;
        proof {
            assert(self@.buf =~= old(self)@.afterRead(old(dst)@.len() as int).buf);
            assert(dst@ =~= old(self)@.filled(old(dst)@));
        }
        Ok(n)
    }

    /// Puts the bytes of `src` into the pipe, as many as there is room
    /// for.
    pub fn Write(&mut self, src: &[u8]) -> (r: Result<usize, Error>)
        requires
            old(self)@.wf(),
        ensures
            r == old(self)@.writeResult(src@.len() as int),
            final(self)@ == if r is Ok {
                old(self)@.afterWrite(src@)
            } else {
                old(self)@
            },
            final(self)@.wf(),
    {
        if self.readers == 0 {
            return Err(Error::SysError(EPIPE));
        }
        let room = self.max - self.buf.len();
        if src.len() > 0 && room == 0 {
            return Err(Error::SysError(SysErr::EAGAIN));
        }
        let n = if src.len() < room {
            src.len()
        } else {
            room
        };
        let mut k: usize = 0;
        while k < n
            invariant
                k <= n,
                n <= src@.len(),
                old(self).buf@.len() + n <= self.max,
                self.max == old(self).max,
                self.readers == old(self).readers,
                self.writers == old(self).writers,
                self.queue == old(self).queue,
                self.buf@ == old(self).buf@ + src@.subrange(0, k as int),
            decreases n - k,
        {
            self.buf.push(src[k]);
            proof {
                assert(src@.subrange(0, k as int + 1) =~= src@.subrange(0, k as int).push(src@[k as int]));
                assert(self.buf@ =~= old(self).buf@ + src@.subrange(0, k as int + 1));
            }
            k = k + 1;
        }
        proof {
            if n == 0 {
                assert(self.buf@ =~= old(self).buf@);
            }
        }
        Ok(n)
    }

    /// How many bytes wait in the pipe.
    pub fn Queued(&self) -> (r: usize)
        ensures
            r == self@.buf.len(),
    {
        self.buf.len()
    }

    /// Closes an end that reads.
    pub fn RClose(&mut self)
        ensures
            final(self)@ == (PipeView { readers: old(self)@.closed().readers, ..old(self)@ }),
    {
        if self.readers > 0 {
            self.readers = self.readers - 1;
        }
    }

    /// Closes an end that writes.
    pub fn WClose(&mut self)
        ensures
            final(self)@ == (PipeView { writers: old(self)@.closed().writers, ..old(self)@ }),
    {
        if self.writers > 0 {
            self.writers = self.writers - 1;
        }
    }

    /// Tells the waiters of the pipe of `mask`.
    pub fn Notify(&mut self, mask: EventMask)
        ensures
            final(self)@ == old(self)@.notified(mask),
    {
        self.queue.Notify(mask);
    }

    /// The events that are ready on an end that reads and writes.
    pub fn RWReadiness(&self) -> (r: EventMask)
        ensures
            r == self@.rwReadiness(),
    {
        let mut ready: EventMask = 0;
        let mut out: EventMask = 0;
        if self.buf.len() > 0 || self.writers == 0 {
            ready = EVENT_IN;
        }
        if self.buf.len() < self.max || self.readers == 0 {
            out = EVENT_OUT;
        }
        ready | out
    }
}

} // verus!
