//! What the mode of a host file says of it.

use vstd::prelude::*;
use crate::fs::attr::InodeFileType;

verus! {

/// The bits of a file mode that say what kind of file it is.
pub const S_IFMT: u32 = 0o170000;

pub const S_IFSOCK: u32 = 0o140000;

pub const S_IFLNK: u32 = 0o120000;

pub const S_IFREG: u32 = 0o100000;

pub const S_IFBLK: u32 = 0o060000;

pub const S_IFDIR: u32 = 0o040000;

pub const S_IFCHR: u32 = 0o020000;

pub const S_IFIFO: u32 = 0o010000;

/// The kind of inode that the file mode `mode` stands for.
pub open spec fn KindOf(mode: u32) -> InodeFileType {
    let kind = mode & S_IFMT;
    if kind == S_IFREG {
        InodeFileType::RegularFile
    } else if kind == S_IFDIR {
        InodeFileType::Directory
    } else if kind == S_IFLNK {
        InodeFileType::Symlink
    } else if kind == S_IFIFO {
        InodeFileType::Pipe
    } else if kind == S_IFSOCK {
        InodeFileType::Socket
    } else if kind == S_IFCHR {
        InodeFileType::CharacterDevice
    } else if kind == S_IFBLK {
        InodeFileType::BlockDevice
    } else {
        InodeFileType::Other
    }
}

/// The kind of inode that the file mode `mode` stands for.
pub fn FileTypeOf(mode: u32) -> (r: InodeFileType)
    ensures
        r == KindOf(mode),
{
    let kind = mode & S_IFMT;
    if kind == S_IFREG {
        InodeFileType::RegularFile
    } else if kind == S_IFDIR {
        InodeFileType::Directory
    } else if kind == S_IFLNK {
        InodeFileType::Symlink
    } else if kind == S_IFIFO {
        InodeFileType::Pipe
    } else if kind == S_IFSOCK {
        InodeFileType::Socket
    } else if kind == S_IFCHR {
        InodeFileType::CharacterDevice
    } else if kind == S_IFBLK {
        InodeFileType::BlockDevice
    } else {
        InodeFileType::Other
    }
}

/// Whether reads and writes on a host file of mode `mode` may have to
/// wait: on a pipe, a socket and a character device.
pub fn WouldBlock(mode: u32) -> (r: bool)
    ensures
        r == (mode & S_IFMT == S_IFIFO || mode & S_IFMT == S_IFSOCK || mode & S_IFMT == S_IFCHR),
{
    let kind = mode & S_IFMT;
    kind == S_IFIFO || kind == S_IFSOCK || kind == S_IFCHR
}

/// Whether a host file of mode `mode` has an offset that reads and writes
/// move: every file on which they never wait.
pub fn Seekable(mode: u32) -> (r: bool)
    ensures
        r == !(mode & S_IFMT == S_IFIFO || mode & S_IFMT == S_IFSOCK || mode & S_IFMT == S_IFCHR),
{
    !WouldBlock(mode)
}

} // verus!
