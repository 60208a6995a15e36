//! What a file handle knows of the directory entry and the inode behind it.

use vstd::prelude::*;

verus! {

/// The kinds of inode.
#[derive(Clone, Copy, Debug, PartialEq, Eq, Structural)]
pub enum InodeFileType {
    RegularFile,
    Directory,
    Symlink,
    Pipe,
    Socket,
    CharacterDevice,
    BlockDevice,
    Other,
}

/// The attributes of an inode that change while it is in use.
#[derive(Clone, Copy, Debug, PartialEq, Eq, Structural)]
pub struct UnstableAttr {
    /// Bytes in the file.
    pub Size: i64,
    /// Bytes that the file takes on its device.
    pub Usage: i64,
    pub Links: u64,
}

/// The inode behind a directory entry.
#[derive(Clone, Copy, Debug, PartialEq, Eq, Structural)]
pub struct Inode {
    pub InodeId: u64,
    pub Type: InodeFileType,
    /// Reads and writes may have to wait, as on a pipe or a terminal.
    pub WouldBlock: bool,
    pub Attr: UnstableAttr,
}

/// The directory entry that a file was opened through.
#[derive(Clone, Copy, Debug, PartialEq, Eq, Structural)]
pub struct Dirent {
    pub Inode: Inode,
}

/// Where `getdents` puts the entries of a directory.
pub struct DentrySerializer {
    /// Bytes written so far.
    pub written: usize,
}

/// The position of a walk through a directory.
pub struct DirCtx {
    pub cursor: i64,
}

/// The host file that backs a mapping.
#[derive(Clone, Copy, Debug, PartialEq, Eq, Structural)]
pub struct HostInodeOp {
    pub HostFd: i32,
}

/// The `whence` of a seek: from the start of the file.
pub const SEEK_SET: i32 = 0;

/// From the current offset.
pub const SEEK_CUR: i32 = 1;

/// From the end of the file.
pub const SEEK_END: i32 = 2;

} // verus!
