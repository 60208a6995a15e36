//! Flags of an open file.

use vstd::prelude::*;

verus! {

/// The flags of a file handle.
#[derive(Clone, Copy, Debug, PartialEq, Eq, Structural)]
pub struct FileFlags {
    /// Reads and writes go past the page cache.
    pub Direct: bool,
    /// Operations do not wait.
    pub NonBlocking: bool,
    pub DSync: bool,
    pub Sync: bool,
    /// Every write goes to the end of the file.
    pub Append: bool,
    pub Read: bool,
    pub Write: bool,
    /// The file can be read at a position.
    pub Pread: bool,
    /// The file can be written at a position.
    pub PWrite: bool,
    pub Directory: bool,
    /// The owner is signalled when the file becomes ready.
    pub Async: bool,
    pub LargeFile: bool,
    pub NonSeekable: bool,
    pub Truncate: bool,
}

impl FileFlags {
    /// No flag set.
    pub open spec fn none() -> FileFlags {
        FileFlags {
            Direct: false,
            NonBlocking: false,
            DSync: false,
            Sync: false,
            Append: false,
            Read: false,
            Write: false,
            Pread: false,
            PWrite: false,
            Directory: false,
            Async: false,
            LargeFile: false,
            NonSeekable: false,
            Truncate: false,
        }
    }

    /// The flags with the four settable ones taken from `s`.
    pub open spec fn with(self, s: SettableFileFlags) -> FileFlags {
        FileFlags { Direct: s.Direct, NonBlocking: s.NonBlocking, Append: s.Append, Async: s.Async, ..self }
    }

    /// The flags that can be set on an open file.
    pub fn Settable(&self) -> (r: SettableFileFlags)
        ensures
            r == (SettableFileFlags {
                Direct: self.Direct,
                NonBlocking: self.NonBlocking,
                Append: self.Append,
                Async: self.Async,
            }),
    {
        SettableFileFlags { Direct: self.Direct, NonBlocking: self.NonBlocking, Append: self.Append, Async: self.Async }
    }
}

impl Default for FileFlags {
    fn default() -> (r: FileFlags)
        ensures
            r == FileFlags::none(),
    {
        FileFlags {
            Direct: false,
            NonBlocking: false,
            DSync: false,
            Sync: false,
            Append: false,
            Read: false,
            Write: false,
            Pread: false,
            PWrite: false,
            Directory: false,
            Async: false,
            LargeFile: false,
            NonSeekable: false,
            Truncate: false,
        }
    }
}

/// The flags that `fcntl(F_SETFL)` can change.
#[derive(Clone, Copy, Debug, PartialEq, Eq, Structural)]
pub struct SettableFileFlags {
    pub Direct: bool,
    pub NonBlocking: bool,
    pub Append: bool,
    pub Async: bool,
}


/// Bits of the flags that `fcntl(F_GETFL)` returns.
pub struct Flags {}

impl Flags {
    pub const O_ACCMODE: u32 = 0x3;
    pub const O_RDONLY: u32 = 0x0;
    pub const O_WRONLY: u32 = 0x1;
    pub const O_TRUNC: u32 = 0x200;
    pub const O_APPEND: u32 = 0x400;
    pub const O_NONBLOCK: u32 = 0x800;
    pub const O_DSYNC: u32 = 0x1000;
    pub const O_ASYNC: u32 = 0x2000;
    pub const O_DIRECT: u32 = 0x4000;
    pub const O_LARGEFILE: u32 = 0x8000;
    pub const O_DIRECTORY: u32 = 0x1_0000;
    pub const O_SYNC: u32 = 0x10_1000;
}

impl FileFlags {
    /// The flags that the bits `mask` of the host stand for. A file is
    /// open for reading unless it is open for writing only, and for
    /// writing unless it is open for reading only; `O_SYNC` implies
    /// `DSync`.
    pub open spec fn fromFcntl(mask: u32) -> FileFlags {
        FileFlags {
            Direct: mask & Flags::O_DIRECT != 0,
            NonBlocking: mask & Flags::O_NONBLOCK != 0,
            DSync: mask & (Flags::O_DSYNC | Flags::O_SYNC) != 0,
            Sync: mask & Flags::O_SYNC == Flags::O_SYNC,
            Append: mask & Flags::O_APPEND != 0,
            Read: mask & Flags::O_ACCMODE != Flags::O_WRONLY,
            Write: mask & Flags::O_ACCMODE != Flags::O_RDONLY,
            Pread: false,
            PWrite: false,
            Directory: mask & Flags::O_DIRECTORY != 0,
            Async: mask & Flags::O_ASYNC != 0,
            LargeFile: mask & Flags::O_LARGEFILE != 0,
            NonSeekable: false,
            Truncate: mask & Flags::O_TRUNC != 0,
        }
    }

    pub fn FromFcntl(mask: u32) -> (r: FileFlags)
        ensures
            r == FileFlags::fromFcntl(mask),
    {
        FileFlags {
            Direct: mask & Flags::O_DIRECT != 0,
            NonBlocking: mask & Flags::O_NONBLOCK != 0,
            DSync: mask & (Flags::O_DSYNC | Flags::O_SYNC) != 0,
            Sync: mask & Flags::O_SYNC == Flags::O_SYNC,
            Append: mask & Flags::O_APPEND != 0,
            Read: mask & Flags::O_ACCMODE != Flags::O_WRONLY,
            Write: mask & Flags::O_ACCMODE != Flags::O_RDONLY,
            Pread: false,
            PWrite: false,
            Directory: mask & Flags::O_DIRECTORY != 0,
            Async: mask & Flags::O_ASYNC != 0,
            LargeFile: mask & Flags::O_LARGEFILE != 0,
            NonSeekable: false,
            Truncate: mask & Flags::O_TRUNC != 0,
        }
    }
}

} // verus!
