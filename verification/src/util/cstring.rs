//! Strings as C lays them out, and strings read from user memory.

use vstd::prelude::*;
use vstd::string::StringSliceAdditionalSpecFns;
use crate::qlib::common::Error;
use crate::qlib::common::SysErr;

verus! {

/// `ENAMETOOLONG`: no end of string within the bytes allowed.
pub const ENAMETOOLONG: i32 = 36;

/// A run of user memory that can be read: the bytes from `base` on.
pub struct UserRegion {
    pub base: u64,
    pub data: Vec<u8>,
}

/// How many bytes stand before the first 0 of `s` at or after `from`; the
/// number of bytes from `from` to the end if there is no 0.
pub open spec fn RunLength(s: Seq<u8>, from: int) -> int
    decreases s.len() - from,
{
    if from < 0 || from >= s.len() || s[from] == 0 {
        0
    } else {
        1 + RunLength(s, from + 1)
    }
}

/// The run is within the bytes, and ends at a 0 or at their end.
pub proof fn lemma_run_length(s: Seq<u8>, from: int)
    requires
        0 <= from <= s.len(),
    ensures
        0 <= RunLength(s, from) <= s.len() - from,
        forall|k: int| from <= k < from + RunLength(s, from) ==> s[k] != 0,
        from + RunLength(s, from) < s.len() ==> s[from + RunLength(s, from)] == 0,
    decreases s.len() - from,
{
    if from < s.len() && s[from] != 0 {
        lemma_run_length(s, from + 1);
    }
}

impl UserRegion {
    /// Whether the byte at `addr` can be read.
    pub open spec fn holds(&self, addr: int) -> bool {
        self.base <= addr < self.base + self.data@.len()
    }

    /// The bytes of the string at `addr` that a copy of at most `len`
    /// bytes takes: those before the first 0, as far as they can be read
    /// and `len` allows.
    pub open spec fn stringAt(&self, addr: u64, len: usize) -> Seq<u8> {
        if !self.holds(addr as int) {
            Seq::empty()
        } else {
            let from = addr - self.base;
            let run = RunLength(self.data@, from);
            let n = if run < len {
                run
            } else {
                len as int
            };
            self.data@.subrange(from, from + n)
        }
    }

    /// What a copy of the string at `addr` of at most `len` bytes reports:
    /// success if the string ends within `len` bytes that can be read,
    /// `EFAULT` if the bytes that can be read end first, `ENAMETOOLONG` if
    /// `len` bytes hold no end.
    pub open spec fn stringStatus(&self, addr: u64, len: usize) -> Result<(), Error> {
        if !self.holds(addr as int) {
            Err(Error::SysError(SysErr::EFAULT))
        } else {
            let from = addr - self.base;
            let run = RunLength(self.data@, from);
            if run < len && from + run < self.data@.len() {
                Ok(())
            } else if run < len {
                Err(Error::SysError(SysErr::EFAULT))
            } else {
                Err(Error::SysError(ENAMETOOLONG))
            }
        }
    }

    /// Copies in the string at `addr`, without its final 0, reading at
    /// most `len` bytes. Returns what was copied before the copy ended,
    /// and how it ended.
    pub fn CopyInString(&self, addr: u64, len: usize) -> (r: (Vec<u8>, Result<(), Error>))
        ensures
            r.0@ == self.stringAt(addr, len),
            r.1 == self.stringStatus(addr, len),
    {
        let mut out: Vec<u8> = Vec::new();
        let size = self.data.len();
        if addr < self.base || addr - self.base >= size as u64 {
            return (out, Err(Error::SysError(SysErr::EFAULT)));
        }
        let from = (addr - self.base) as usize;
        let mut k: usize = 0;
        proof {
            lemma_run_length(self.data@, from as int);
        }
        while k < len && from + k < size && self.data[from + k] != 0
            invariant
                size == self.data@.len(),
                from < size,
                from + k <= size,
                k <= len,
                out@ == self.data@.subrange(from as int, from + k),
                RunLength(self.data@, from as int) == k + RunLength(self.data@, from + k),
            decreases size - k,
        {
            out.push(self.data[from + k]);
            proof {
                assert(out@ =~= self.data@.subrange(from as int, from + k + 1));
            }
            k = k + 1;
        }
        proof {
            lemma_run_length(self.data@, from + k);
        }
        if k < len && from + k < size {
            (out, Ok(()))
        } else if k < len {
            (out, Err(Error::SysError(SysErr::EFAULT)))
        } else {
            proof {
                lemma_run_length(self.data@, from as int);
            }
            (out, Err(Error::SysError(ENAMETOOLONG)))
        }
    }
}

/// A string with the 0 that ends it, as C functions take it.
pub struct CString {
    pub data: Vec<u8>,
}

impl CString {
    /// The most bytes of a string read from user memory.
    pub const MAX_STR_LEN: usize = 4096;

    /// The bytes of `s`, and a 0.
    pub fn New(s: &str) -> (r: Self)
        requires
            s.spec_bytes().len() < usize::MAX,
        ensures
            r.data@ == s.spec_bytes().push(0u8),
    {
        let bytes = s.as_bytes();
        let mut data: Vec<u8> = Vec::with_capacity(bytes.len() + 1);
        let mut i: usize = 0;
        while i < bytes.len()
            invariant
                i <= bytes@.len(),
                data@ == bytes@.subrange(0, i as int),
            decreases bytes@.len() - i,
        {
            data.push(bytes[i]);
            proof {
                assert(data@ =~= bytes@.subrange(0, i as int + 1));
            }
            i = i + 1;
        }
        proof {
            assert(bytes@.subrange(0, bytes@.len() as int) =~= bytes@);
        }
        data.push(0);
        Self { data }
    }

    /// How many bytes the string takes, the final 0 counted.
    pub fn Len(&self) -> (r: usize)
        ensures
            r == self.data@.len(),
    {
        self.data.len()
    }

    /// The bytes of the string, the final 0 among them.
    pub fn Slice(&self) -> (r: &[u8])
        ensures
            r@ == self.data@,
    {
        self.data.as_slice()
    }

    /// Reads the string at `addr` of `mem`, of at most `MAX_STR_LEN` bytes.
    pub fn ToString(mem: &UserRegion, addr: u64) -> (r: Result<Vec<u8>, Error>)
        ensures
            match mem.stringStatus(addr, CString::MAX_STR_LEN) {
                Ok(()) => r matches Ok(s) && s@ == mem.stringAt(addr, CString::MAX_STR_LEN),
                Err(_) => r == Err::<Vec<u8>, Error>(Error::SysError(SysErr::EINVAL)),
            },
    {
        Self::ToStringWithLen(mem, addr, Self::MAX_STR_LEN)
    }

    /// Reads the string at `addr` of `mem`, of at most `len` bytes.
    /// `EINVAL` if the string cannot be read to its end.
    pub fn ToStringWithLen(mem: &UserRegion, addr: u64, len: usize) -> (r: Result<Vec<u8>, Error>)
        ensures
            match mem.stringStatus(addr, len) {
                Ok(()) => r matches Ok(s) && s@ == mem.stringAt(addr, len),
                Err(_) => r == Err::<Vec<u8>, Error>(Error::SysError(SysErr::EINVAL)),
            },
    {
        let (str, err) = mem.CopyInString(addr, len);
        match err {
            Err(_) => Err(Error::SysError(SysErr::EINVAL)),
            Ok(()) => Ok(str),
        }
    }

    /// Copies in the string at `addr` of `mem`; see
    /// `UserRegion::CopyInString`.
    pub fn CopyInString(mem: &UserRegion, addr: u64, len: usize) -> (r: (Vec<u8>, Result<(), Error>))
        ensures
            r.0@ == mem.stringAt(addr, len),
            r.1 == mem.stringStatus(addr, len),
    {
        mem.CopyInString(addr, len)
    }
}

} // verus!
