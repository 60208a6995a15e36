//! Files are told apart and ordered by their ids.

use std::cmp::Ordering;
use vstd::prelude::*;
use crate::fs::file::File;
use crate::fs::file::FileOperations;

verus! {

impl<F: FileOperations> PartialEq for File<F> {
    /// Two handles are equal if they have the same id.
    fn eq(&self, other: &Self) -> (r: bool) {
        self.0.UniqueId == other.0.UniqueId
    }
}

impl<F: FileOperations> vstd::std_specs::cmp::PartialEqSpecImpl for File<F> {
    open spec fn obeys_eq_spec() -> bool {
        true
    }

    open spec fn eq_spec(&self, other: &Self) -> bool {
        self.0.UniqueId == other.0.UniqueId
    }
}

impl<F: FileOperations> PartialOrd for File<F> {
    /// Handles are ordered as their ids are.
    fn partial_cmp(&self, other: &Self) -> (r: Option<Ordering>) {
        if self.0.UniqueId < other.0.UniqueId {
            Some(Ordering::Less)
        } else if self.0.UniqueId == other.0.UniqueId {
            Some(Ordering::Equal)
        } else {
            Some(Ordering::Greater)
        }
    }
}

impl<F: FileOperations> vstd::std_specs::cmp::PartialOrdSpecImpl for File<F> {
    open spec fn obeys_partial_cmp_spec() -> bool {
        true
    }

    open spec fn partial_cmp_spec(&self, other: &Self) -> Option<Ordering> {
        if self.0.UniqueId < other.0.UniqueId {
            Some(Ordering::Less)
        } else if self.0.UniqueId == other.0.UniqueId {
            Some(Ordering::Equal)
        } else {
            Some(Ordering::Greater)
        }
    }
}

/// Whether `a` and `b` are handles to the same file.
pub fn SameFile<F: FileOperations>(a: &File<F>, b: &File<F>) -> (r: bool)
    ensures
        r == (a.0.UniqueId == b.0.UniqueId),
{
    *a == *b
}

/// Whether `a` comes before `b`: the file of `a` was made first.
pub fn Before<F: FileOperations>(a: &File<F>, b: &File<F>) -> (r: bool)
    ensures
        r == (a.0.UniqueId < b.0.UniqueId),
{
    *a < *b
}

} // verus!
