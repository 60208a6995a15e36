//! Advisory locks on byte ranges of a file.

use vstd::prelude::*;

verus! {

/// A lock that `owner` holds on the bytes from `start` up to `end`.
#[derive(Clone, Copy, Debug, PartialEq, Eq, Structural)]
pub struct RegionLock {
    pub owner: u64,
    pub start: u64,
    pub end: u64,
}

/// The locks of one style on a file.
pub struct Locks {
    pub held: Vec<RegionLock>,
}

/// The locks without those of `owner`, in the same order.
pub open spec fn NotOf(s: Seq<RegionLock>, owner: u64) -> Seq<RegionLock>
    decreases s.len(),
{
    if s.len() == 0 {
        s
    } else if s.last().owner == owner {
        NotOf(s.drop_last(), owner)
    } else {
        NotOf(s.drop_last(), owner).push(s.last())
    }
}

impl Locks {
    pub fn New() -> (r: Locks)
        ensures
            r.held@ == Seq::<RegionLock>::empty(),
    {
        Locks { held: Vec::new() }
    }

    /// Gives up every lock that `owner` holds, whatever its range.
    pub fn UnlockRegion(&mut self, owner: u64)
        ensures
            final(self).held@ == NotOf(old(self).held@, owner),
    {
        let mut kept: Vec<RegionLock> = Vec::new();
        let n = self.held.len();
        let mut i: usize = 0;
        assert(self.held@.take(0) =~= Seq::<RegionLock>::empty());
        while i < n
            invariant
                i <= n,
                n == self.held@.len(),
                self.held@ == old(self).held@,
                kept@ == NotOf(self.held@.take(i as int), owner),
            decreases n - i,
        {
            let l = self.held[i];
            proof {
                let t = self.held@.take(i as int + 1);
                assert(t.drop_last() =~= self.held@.take(i as int));
                assert(t.last() == l);
            }
            if l.owner != owner {
                kept.push(l);
            }
            i = i + 1;
        }
        assert(self.held@.take(n as int) =~= self.held@);
        self.held = kept;
    }
}

/// The locks on a file, of both styles.
pub struct LockCtx {
    /// Locks taken with `flock`.
    pub BSD: Locks,
    /// Locks taken with `fcntl`.
    pub Posix: Locks,
}

} // verus!
