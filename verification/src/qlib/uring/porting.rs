//! What the submission ring takes from the host's descriptor types.

use vstd::prelude::*;

verus! {

/// A descriptor of the host.
pub type RawFd = i32;

/// The length of a socket address.
pub type socklen_t = u32;

/// An offset in a file of any size.
pub type off64_t = i64;

/// Something that has a host descriptor.
pub trait AsRawFd {
    fn as_raw_fd(&self) -> RawFd;
}

/// Something that gives up its host descriptor.
pub trait IntoRawFd {
    fn into_raw_fd(self) -> RawFd;
}

} // verus!
