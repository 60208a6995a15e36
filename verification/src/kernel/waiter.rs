//! Queues of waiters that readiness events wake.

use vstd::prelude::*;
use crate::qlib::linux_def::EventMask;

verus! {

/// One waiter: the events it asked for and those it has been sent.
#[derive(Clone, Copy, Debug, PartialEq, Eq, Structural)]
pub struct WaitEntry {
    /// Names the waiter, to find it again when it leaves.
    pub id: u64,
    /// The events that the waiter asked for.
    pub mask: EventMask,
    /// The events, among those asked for, that have been notified.
    pub triggered: EventMask,
}

impl WaitEntry {
    /// A waiter that has asked for nothing yet.
    pub fn New(id: u64) -> (r: WaitEntry)
        ensures
            r == (WaitEntry { id, mask: 0, triggered: 0 }),
    {
        WaitEntry { id, mask: 0, triggered: 0 }
    }

    /// The entry after `mask` has been notified: the asked-for part of
    /// `mask` is added to `triggered`.
    pub open spec fn notified(self, mask: EventMask) -> WaitEntry {
        WaitEntry { triggered: self.triggered | (self.mask & mask), ..self }
    }
}

/// The entries after `mask` has been notified to each of them.
pub open spec fn NotifyAll(s: Seq<WaitEntry>, mask: EventMask) -> Seq<WaitEntry> {
    Seq::new(s.len(), |i: int| s[i].notified(mask))
}

/// The union of the events that the entries asked for.
pub open spec fn EventsOf(s: Seq<WaitEntry>) -> EventMask
    decreases s.len(),
{
    if s.len() == 0 {
        0
    } else {
        EventsOf(s.drop_last()) | s.last().mask
    }
}

/// The entries without those of waiter `id`, in the same order.
pub open spec fn Without(s: Seq<WaitEntry>, id: u64) -> Seq<WaitEntry>
    decreases s.len(),
{
    if s.len() == 0 {
        s
    } else if s.last().id == id {
        Without(s.drop_last(), id)
    } else {
        Without(s.drop_last(), id).push(s.last())
    }
}

/// The waiters on one event source, in the order in which they came.
pub struct Queue {
    pub entries: Vec<WaitEntry>,
}

impl View for Queue {
    type V = Seq<WaitEntry>;

    open spec fn view(&self) -> Seq<WaitEntry> {
        self.entries@
    }
}

impl Queue {
    /// A queue without waiters.
    pub fn New() -> (r: Queue)
        ensures
            r@ == Seq::<WaitEntry>::empty(),
    {
        Queue { entries: Vec::new() }
    }

    /// Adds waiter `e` at the end, asking for the events in `mask`.
    pub fn EventRegister(&mut self, e: &WaitEntry, mask: EventMask)
        ensures
            final(self)@ == old(self)@.push(WaitEntry { id: e.id, mask, triggered: 0 }),
    {
        self.entries.push(WaitEntry { id: e.id, mask, triggered: 0 });
    }

    /// Removes every entry of waiter `e`.
    pub fn EventUnregister(&mut self, e: &WaitEntry)
        ensures
            final(self)@ == Without(old(self)@, e.id),
    {
        let mut kept: Vec<WaitEntry> = Vec::new();
        let mut i: usize = 0;
        let n = self.entries.len();
        assert(self.entries@.take(0) =~= Seq::<WaitEntry>::empty());
        while i < n
            invariant
                i <= n,
                n == self.entries@.len(),
                self.entries@ == old(self).entries@,
                kept@ == Without(self.entries@.take(i as int), e.id),
            decreases n - i,
        {
            let entry = self.entries[i];
            proof {
                let t = self.entries@.take(i as int + 1);
                assert(t.drop_last() =~= self.entries@.take(i as int));
                assert(t.last() == entry);
            }
            if entry.id != e.id {
                kept.push(entry);
            }
            i = i + 1;
        }
        assert(self.entries@.take(n as int) =~= self.entries@);
        self.entries = kept;
    }

    /// The union of the events that the waiters ask for.
    pub fn Events(&self) -> (r: EventMask)
        ensures
            r == EventsOf(self@),
    {
        let mut acc: EventMask = 0;
        let mut i: usize = 0;
        let n = self.entries.len();
        assert(self.entries@.take(0) =~= Seq::<WaitEntry>::empty());
        while i < n
            invariant
                i <= n,
                n == self.entries@.len(),
                acc == EventsOf(self.entries@.take(i as int)),
            decreases n - i,
        {
            proof {
                let t = self.entries@.take(i as int + 1);
                assert(t.drop_last() =~= self.entries@.take(i as int));
                assert(t.last() == self.entries@[i as int]);
            }
            acc = acc | self.entries[i].mask;
            i = i + 1;
        }
        assert(self.entries@.take(n as int) =~= self.entries@);
        acc
    }

    /// Tells every waiter which of the events in `mask` it asked for.
    pub fn Notify(&mut self, mask: EventMask)
        ensures
            final(self)@ == NotifyAll(old(self)@, mask),
    {
        let mut i: usize = 0;
        let n = self.entries.len();
        while i < n
            invariant
                i <= n,
                n == self.entries@.len(),
                n == old(self).entries@.len(),
                forall|j: int| 0 <= j < i ==> self.entries@[j] == old(self).entries@[j].notified(mask),
                forall|j: int| i <= j < n ==> self.entries@[j] == old(self).entries@[j],
            decreases n - i,
        {
            let e = self.entries[i];
            self.entries[i] = WaitEntry { id: e.id, mask: e.mask, triggered: e.triggered | (e.mask & mask) };
            i = i + 1;
        }
        assert(self@ =~= NotifyAll(old(self)@, mask));
    }
}

} // verus!
