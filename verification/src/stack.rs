//! The user stack of a task, and the part of user memory that signal
//! frames live in.

use vstd::prelude::*;
use crate::qlib::common::Error;
use crate::qlib::common::SysErr;
use crate::qlib::linux_def::SignalInfo;
use crate::qlib::linux_def::UContext;

verus! {

/// What a signal frame is made of.
#[derive(Clone, Copy, Debug, PartialEq, Eq, Structural)]
pub enum StackValue {
    /// A 64-bit word.
    Word(u64),
    /// A `siginfo_t`.
    Info(SignalInfo),
    /// A `ucontext_t`.
    Context(UContext),
}

/// Bytes that a `siginfo_t` takes in user memory.
pub const SIGNAL_INFO_SIZE: u64 = 128;

/// Bytes that a `ucontext_t` takes in user memory.
pub const UCONTEXT_SIZE: u64 = 304;

impl StackValue {
    /// Bytes that the value takes in user memory.
    pub open spec fn size(self) -> int {
        match self {
            StackValue::Word(_) => 8,
            StackValue::Info(_) => 128,
            StackValue::Context(_) => 304,
        }
    }

    /// Bytes that the value takes in user memory.
    pub fn Size(&self) -> (r: u64)
        ensures
            r == self.size(),
    {
        match self {
            StackValue::Word(_) => 8,
            StackValue::Info(_) => SIGNAL_INFO_SIZE,
            StackValue::Context(_) => UCONTEXT_SIZE,
        }
    }
}

/// A value that was copied out to user memory, at its address.
#[derive(Clone, Copy, Debug, PartialEq, Eq, Structural)]
pub struct MemObject {
    pub addr: u64,
    pub value: StackValue,
}

impl MemObject {
    /// Whether the object shares a byte with the `n` bytes at `addr`.
    pub open spec fn overlaps(self, addr: int, n: int) -> bool {
        self.addr < addr + n && addr < self.addr + self.value.size()
    }
}

/// The objects that no byte of the `n` bytes at `addr` touches, in order.
pub open spec fn Surviving(s: Seq<MemObject>, addr: int, n: int) -> Seq<MemObject>
    decreases s.len(),
{
    if s.len() == 0 {
        s
    } else if s.last().overlaps(addr, n) {
        Surviving(s.drop_last(), addr, n)
    } else {
        Surviving(s.drop_last(), addr, n).push(s.last())
    }
}

/// The objects after `value` has been copied out to `addr`: what it
/// overwrites, in part or whole, is gone.
pub open spec fn Written(s: Seq<MemObject>, addr: u64, value: StackValue) -> Seq<MemObject> {
    Surviving(s, addr as int, value.size()).push(MemObject { addr, value })
}

/// The value that stands at `addr`, if one does: the last one copied there.
pub open spec fn ObjectAt(s: Seq<MemObject>, addr: u64) -> Option<StackValue>
    decreases s.len(),
{
    if s.len() == 0 {
        None
    } else if s.last().addr == addr {
        Some(s.last().value)
    } else {
        ObjectAt(s.drop_last(), addr)
    }
}

/// No two objects share a byte.
pub open spec fn Disjoint(s: Seq<MemObject>) -> bool {
    forall|i: int, j: int|
        0 <= i < s.len() && 0 <= j < s.len() && i != j ==> !(#[trigger] s[i]).overlaps(
            (#[trigger] s[j]).addr as int,
            s[j].value.size(),
        )
}

/// What survives a write was there before, and none of it touches what is
/// written.
pub proof fn lemma_surviving(s: Seq<MemObject>, addr: int, n: int)
    ensures
        forall|k: int|
            0 <= k < Surviving(s, addr, n).len() ==> {
                &&& s.contains(#[trigger] Surviving(s, addr, n)[k])
                &&& !Surviving(s, addr, n)[k].overlaps(addr, n)
            },
        Disjoint(s) ==> Disjoint(Surviving(s, addr, n)),
    decreases s.len(),
{
    if s.len() > 0 {
        let r = s.drop_last();
        lemma_surviving(r, addr, n);
        let sr = Surviving(r, addr, n);
        let out = Surviving(s, addr, n);
        assert forall|k: int| 0 <= k < out.len() implies {
            &&& s.contains(#[trigger] out[k])
            &&& !out[k].overlaps(addr, n)
        } by {
            if k < sr.len() {
                assert(r.contains(sr[k]));
                let w = choose|w: int| 0 <= w < r.len() && r[w] == sr[k];
                assert(s[w] == sr[k]);
            } else {
                assert(out[k] == s.last());
                assert(s[s.len() - 1] == s.last());
            }
        }
        if Disjoint(s) {
            assert(Disjoint(r)) by {
                assert forall|i: int, j: int| 0 <= i < r.len() && 0 <= j < r.len() && i != j implies !(#[trigger] r[i]).overlaps(
                    (#[trigger] r[j]).addr as int,
                    r[j].value.size(),
                ) by {
                    assert(r[i] == s[i] && r[j] == s[j]);
                }
            }
            assert forall|i: int, j: int| 0 <= i < out.len() && 0 <= j < out.len() && i != j implies !(#[trigger] out[i]).overlaps(
                (#[trigger] out[j]).addr as int,
                out[j].value.size(),
            ) by {
                if i < sr.len() && j < sr.len() {
                    assert(out[i] == sr[i] && out[j] == sr[j]);
                } else if i < sr.len() {
                    assert(r.contains(sr[i]));
                    let w = choose|w: int| 0 <= w < r.len() && r[w] == sr[i];
                    assert(s[w] == out[i]);
                    assert(s[s.len() - 1] == out[j]);
                } else {
                    assert(r.contains(sr[j]));
                    let w = choose|w: int| 0 <= w < r.len() && r[w] == sr[j];
                    assert(s[w] == out[j]);
                    assert(s[s.len() - 1] == out[i]);
                }
            }
        }
    }
}

/// A write keeps the objects apart from each other.
pub proof fn lemma_written_disjoint(s: Seq<MemObject>, addr: u64, value: StackValue)
    requires
        Disjoint(s),
    ensures
        Disjoint(Written(s, addr, value)),
{
    let sv = Surviving(s, addr as int, value.size());
    lemma_surviving(s, addr as int, value.size());
    let w = Written(s, addr, value);
    assert forall|i: int, j: int| 0 <= i < w.len() && 0 <= j < w.len() && i != j implies !(#[trigger] w[i]).overlaps(
        (#[trigger] w[j]).addr as int,
        w[j].value.size(),
    ) by {
        if i < sv.len() && j < sv.len() {
            assert(w[i] == sv[i] && w[j] == sv[j]);
        } else if i < sv.len() {
            assert(w[i] == sv[i]);
        } else {
            assert(w[j] == sv[j]);
        }
    }
}

/// What was just written at an address stands there.
pub proof fn lemma_read_written(s: Seq<MemObject>, addr: u64, value: StackValue)
    ensures
        ObjectAt(Written(s, addr, value), addr) == Some(value),
{
}

/// A write elsewhere leaves standing a value that it does not touch.
pub proof fn lemma_read_elsewhere(s: Seq<MemObject>, b: u64, x: StackValue, addr: u64, value: StackValue)
    requires
        ObjectAt(s, b) == Some(x),
        !(MemObject { addr: b, value: x }).overlaps(addr as int, value.size()),
        b != addr,
    ensures
        ObjectAt(Written(s, addr, value), b) == Some(x),
{
    lemma_find_survives(s, b, x, addr as int, value.size());
    let w = Written(s, addr, value);
    assert(w.drop_last() =~= Surviving(s, addr as int, value.size()));
}

/// A value that stands at `b` and that the `n` bytes at `addr` do not
/// touch still stands there among the survivors.
pub proof fn lemma_find_survives(s: Seq<MemObject>, b: u64, x: StackValue, addr: int, n: int)
    requires
        ObjectAt(s, b) == Some(x),
        !(MemObject { addr: b, value: x }).overlaps(addr, n),
    ensures
        ObjectAt(Surviving(s, addr, n), b) == Some(x),
    decreases s.len(),
{
    if s.len() > 0 {
        let r = s.drop_last();
        let sr = Surviving(r, addr, n);
        if s.last().addr == b {
            assert(s.last() == (MemObject { addr: b, value: x }));
            assert(Surviving(s, addr, n).drop_last() =~= sr);
        } else {
            lemma_find_survives(r, b, x, addr, n);
            if !s.last().overlaps(addr, n) {
                assert(Surviving(s, addr, n).drop_last() =~= sr);
            }
        }
    }
}

/// The user memory that signal frames live in: the mapped range from `lo`
/// up to `hi`, and the values that stand in it.
pub struct UserMemory {
    pub lo: u64,
    pub hi: u64,
    pub objects: Vec<MemObject>,
}

/// A `UserMemory` as a value.
pub struct MemView {
    pub lo: u64,
    pub hi: u64,
    pub objects: Seq<MemObject>,
}

impl View for UserMemory {
    type V = MemView;

    open spec fn view(&self) -> MemView {
        MemView { lo: self.lo, hi: self.hi, objects: self.objects@ }
    }
}

impl MemView {
    /// Whether the `n` bytes at `addr` are mapped.
    pub open spec fn mapped(self, addr: int, n: int) -> bool {
        self.lo <= addr && addr + n <= self.hi
    }

    /// The memory after `value` has been copied out to `addr`; unchanged
    /// if the bytes are not mapped.
    pub open spec fn written(self, addr: u64, value: StackValue) -> MemView {
        if self.mapped(addr as int, value.size()) {
            MemView { objects: Written(self.objects, addr, value), ..self }
        } else {
            self
        }
    }

    /// The `ucontext_t` that stands at `addr`, if one does in mapped bytes.
    pub open spec fn contextAt(self, addr: u64) -> Option<UContext> {
        if self.mapped(addr as int, 304) {
            match ObjectAt(self.objects, addr) {
                Some(StackValue::Context(c)) => Some(c),
                _ => None,
            }
        } else {
            None
        }
    }

    /// The `siginfo_t` that stands at `addr`, if one does in mapped bytes.
    pub open spec fn infoAt(self, addr: u64) -> Option<SignalInfo> {
        if self.mapped(addr as int, 128) {
            match ObjectAt(self.objects, addr) {
                Some(StackValue::Info(c)) => Some(c),
                _ => None,
            }
        } else {
            None
        }
    }
}

impl UserMemory {
    /// Memory mapped from `lo` up to `hi`, with nothing written.
    pub fn New(lo: u64, hi: u64) -> (r: UserMemory)
        ensures
            r@ == (MemView { lo, hi, objects: Seq::empty() }),
    {
        UserMemory { lo, hi, objects: Vec::new() }
    }

    /// Whether the `n` bytes at `addr` are mapped.
    pub fn Mapped(&self, addr: u64, n: u64) -> (r: bool)
        ensures
            r == self@.mapped(addr as int, n as int),
    {
        self.lo <= addr && n <= self.hi && addr <= self.hi - n
    }

    /// Copies `value` out to `addr`. `EFAULT`, and nothing written, if the
    /// bytes are not mapped.
    pub fn CopyOutObj(&mut self, value: StackValue, addr: u64) -> (r: Result<(), Error>)
        ensures
            final(self)@ == old(self)@.written(addr, value),
            r == if old(self)@.mapped(addr as int, value.size()) {
                Ok::<(), Error>(())
            } else {
                Err::<(), Error>(Error::SysError(SysErr::EFAULT))
            },
            Disjoint(old(self)@.objects) ==> Disjoint(final(self)@.objects),
    {
        let n = value.Size();
        if !self.Mapped(addr, n) {
            return Err(Error::SysError(SysErr::EFAULT));
        }
        proof {
            if Disjoint(self@.objects) {
                lemma_written_disjoint(self@.objects, addr, value);
            }
        }
        let mut kept: Vec<MemObject> = Vec::new();
        let len = self.objects.len();
        let mut i: usize = 0;
        assert(self.objects@.take(0) =~= Seq::<MemObject>::empty());
        while i < len
            invariant
                i <= len,
                len == self.objects@.len(),
                n == value.size(),
                addr + n <= u64::MAX,
                self.objects@ == old(self).objects@,
                kept@ == Surviving(self.objects@.take(i as int), addr as int, value.size()),
            decreases len - i,
        {
            let o = self.objects[i];
            proof {
                let t = self.objects@.take(i as int + 1);
                assert(t.drop_last() =~= self.objects@.take(i as int));
                assert(t.last() == o);
            }
            let osize = o.value.Size();
            let touches = o.addr < addr + n && (o.addr > u64::MAX - osize || addr < o.addr + osize);
            if !touches {
                kept.push(o);
            }
            i = i + 1;
        }
        assert(self.objects@.take(len as int) =~= self.objects@);
        kept.push(MemObject { addr, value });
        self.objects = kept;
        Ok(())
    }

    /// The value that stands at `addr`, if one does.
    pub fn Find(&self, addr: u64) -> (r: Option<StackValue>)
        ensures
            r == ObjectAt(self@.objects, addr),
    {
        let mut i: usize = self.objects.len();
        assert(self.objects@.take(i as int) =~= self.objects@);
        while i > 0
            invariant
                i <= self.objects@.len(),
                ObjectAt(self.objects@.take(i as int), addr) == ObjectAt(self.objects@, addr),
            decreases i,
        {
            let o = self.objects[i - 1];
            proof {
                let t = self.objects@.take(i as int);
                assert(t.drop_last() =~= self.objects@.take(i as int - 1));
                assert(t.last() == o);
            }
            if o.addr == addr {
                return Some(o.value);
            }
            i = i - 1;
        }
        None
    }

    /// Copies in the `ucontext_t` at `addr`. `EFAULT` if the bytes are not
    /// mapped or hold no `ucontext_t`.
    pub fn CopyInContext(&self, addr: u64) -> (r: Result<UContext, Error>)
        ensures
            r == match self@.contextAt(addr) {
                Some(c) => Ok::<UContext, Error>(c),
                None => Err::<UContext, Error>(Error::SysError(SysErr::EFAULT)),
            },
    {
        if !self.Mapped(addr, UCONTEXT_SIZE) {
            return Err(Error::SysError(SysErr::EFAULT));
        }
        match self.Find(addr) {
            Some(StackValue::Context(c)) => Ok(c),
            _ => Err(Error::SysError(SysErr::EFAULT)),
        }
    }

    /// Copies in the `siginfo_t` at `addr`. `EFAULT` if the bytes are not
    /// mapped or hold no `siginfo_t`.
    pub fn CopyInInfo(&self, addr: u64) -> (r: Result<SignalInfo, Error>)
        ensures
            r == match self@.infoAt(addr) {
                Some(c) => Ok::<SignalInfo, Error>(c),
                None => Err::<SignalInfo, Error>(Error::SysError(SysErr::EFAULT)),
            },
    {
        if !self.Mapped(addr, SIGNAL_INFO_SIZE) {
            return Err(Error::SysError(SysErr::EFAULT));
        }
        match self.Find(addr) {
            Some(StackValue::Info(c)) => Ok(c),
            _ => Err(Error::SysError(SysErr::EFAULT)),
        }
    }
}

/// A stack in user memory that grows towards lower addresses.
#[derive(Clone, Copy, Debug, PartialEq, Eq, Structural)]
pub struct Stack {
    /// The address of the value pushed last.
    pub sp: u64,
}

impl Stack {
    /// Whether `value` can be pushed: room is left below `sp`, and the
    /// bytes it would take are mapped.
    pub open spec fn canPush(self, mem: MemView, value: StackValue) -> bool {
        self.sp >= value.size() && mem.mapped(self.sp - value.size(), value.size())
    }

    /// A stack whose next value goes just below `addr`.
    pub fn New(addr: u64) -> (r: Stack)
        ensures
            r.sp == addr,
    {
        Stack { sp: addr }
    }

    /// Pushes `value` and returns its address. `EFAULT`, and nothing
    /// changed, if the value cannot be pushed.
    pub fn PushType(&mut self, mem: &mut UserMemory, value: StackValue) -> (r: Result<u64, Error>)
        ensures
            old(self).canPush(old(mem)@, value) ==> {
                &&& r == Ok::<u64, Error>((old(self).sp - value.size()) as u64)
                &&& final(self).sp == old(self).sp - value.size()
                &&& final(mem)@ == old(mem)@.written((old(self).sp - value.size()) as u64, value)
            },
            !old(self).canPush(old(mem)@, value) ==> {
                &&& r == Err::<u64, Error>(Error::SysError(SysErr::EFAULT))
                &&& *final(self) == *old(self)
                &&& final(mem)@ == old(mem)@
            },
            Disjoint(old(mem)@.objects) ==> Disjoint(final(mem)@.objects),
    {
        let n = value.Size();
        if self.sp < n {
            return Err(Error::SysError(SysErr::EFAULT));
        }
        let addr = self.sp - n;
        match mem.CopyOutObj(value, addr) {
            Ok(()) => {
                self.sp = addr;
                Ok(addr)
            },
            Err(e) => Err(e),
        }
    }

    /// Pushes a 64-bit word and returns its address.
    pub fn PushU64(&mut self, mem: &mut UserMemory, val: u64) -> (r: Result<u64, Error>)
        ensures
            old(self).canPush(old(mem)@, StackValue::Word(val)) ==> {
                &&& r == Ok::<u64, Error>((old(self).sp - 8) as u64)
                &&& final(self).sp == old(self).sp - 8
                &&& final(mem)@ == old(mem)@.written((old(self).sp - 8) as u64, StackValue::Word(val))
            },
            !old(self).canPush(old(mem)@, StackValue::Word(val)) ==> {
                &&& r == Err::<u64, Error>(Error::SysError(SysErr::EFAULT))
                &&& *final(self) == *old(self)
                &&& final(mem)@ == old(mem)@
            },
            Disjoint(old(mem)@.objects) ==> Disjoint(final(mem)@.objects),
    {
        self.PushType(mem, StackValue::Word(val))
    }

    /// Pops the `ucontext_t` at the top of the stack. `EFAULT`, and the
    /// stack unchanged, if none stands there.
    pub fn PopContext(&mut self, mem: &UserMemory) -> (r: Result<UContext, Error>)
        ensures
            r == match mem@.contextAt(old(self).sp) {
                Some(c) => Ok::<UContext, Error>(c),
                None => Err::<UContext, Error>(Error::SysError(SysErr::EFAULT)),
            },
            final(self).sp == if r is Ok {
                (old(self).sp + 304) as u64
            } else {
                old(self).sp
            },
    {
        let c = mem.CopyInContext(self.sp)?;
        self.sp = self.sp + UCONTEXT_SIZE;
        Ok(c)
    }

    /// Pops the `siginfo_t` at the top of the stack. `EFAULT`, and the
    /// stack unchanged, if none stands there.
    pub fn PopInfo(&mut self, mem: &UserMemory) -> (r: Result<SignalInfo, Error>)
        ensures
            r == match mem@.infoAt(old(self).sp) {
                Some(c) => Ok::<SignalInfo, Error>(c),
                None => Err::<SignalInfo, Error>(Error::SysError(SysErr::EFAULT)),
            },
            final(self).sp == if r is Ok {
                (old(self).sp + 128) as u64
            } else {
                old(self).sp
            },
    {
        let c = mem.CopyInInfo(self.sp)?;
        self.sp = self.sp + SIGNAL_INFO_SIZE;
        Ok(c)
    }
}

} // verus!
