//! Counters that the kernel keeps of its own work.

use vstd::prelude::*;

verus! {

/// A counter of 64 bits that starts over after its greatest value.
pub struct U64Metric {
    /// The name under which the counter is shown, as a path.
    pub name: &'static str,
    /// Whether the counter is read in step with the others.
    pub sync: bool,
    /// What the counter counts, in words.
    pub description: &'static str,
    pub value: u64,
}

impl U64Metric {
    /// The value after one more count.
    pub open spec fn next(value: u64) -> u64 {
        if value == u64::MAX {
            0
        } else {
            (value + 1) as u64
        }
    }

    /// Whether `after` is this counter, whatever its count: it has the
    /// same name and description and is read in the same way.
    pub open spec fn sameCounter(&self, after: &U64Metric) -> bool {
        &&& after.name@ == self.name@
        &&& after.sync == self.sync
        &&& after.description@ == self.description@
    }

    /// Counts one.
    pub fn Incr(&mut self)
        ensures
            final(self).value == U64Metric::next(old(self).value),
            old(self).sameCounter(final(self)),
    {
        self.value = self.value.wrapping_add(1);
    }

    /// The count.
    pub fn Value(&self) -> (r: u64)
        ensures
            r == self.value,
    {
        self.value
    }
}

/// A counter at 0 that is shown as `name` and described by `description`.
pub fn NewU64Metric(name: &'static str, sync: bool, description: &'static str) -> (r: U64Metric)
    ensures
        r.name@ == name@,
        r.sync == sync,
        r.description@ == description@,
        r.value == 0,
{
    U64Metric { name, sync, description, value: 0 }
}

} // verus!
