//! Where a seek leads to.

use vstd::prelude::*;
use crate::fs::attr::Dirent;
use crate::fs::attr::InodeFileType;
use crate::fs::attr::SEEK_CUR;
use crate::fs::attr::SEEK_END;
use crate::fs::attr::SEEK_SET;
use crate::qlib::common::Error;
use crate::qlib::common::SysErr;

verus! {

/// An offset that a seek may lead to: not negative, and not past the
/// greatest offset.
pub open spec fn ValidOffset(o: int) -> bool {
    0 <= o <= i64::MAX
}

/// Where a seek on the file behind `d` leads to, from offset `current`.
///
/// A pipe or a socket cannot seek (`ESPIPE`); a character device stays at
/// 0. On a regular file or a block device the new offset is `offset` from
/// the start, from `current`, or, on a regular file only, from the end; it
/// is `EINVAL` if it is negative or too great. A directory can only go
/// back to its start or stay where it is. Anything else is `EINVAL`.
pub open spec fn SeekTarget(d: Dirent, whence: i32, current: i64, offset: i64) -> Result<i64, Error> {
    let t = d.Inode.Type;
    let base: int = if whence == SEEK_SET {
        0
    } else if whence == SEEK_CUR {
        current as int
    } else {
        d.Inode.Attr.Size as int
    };
    if t == InodeFileType::Pipe || t == InodeFileType::Socket {
        Err(Error::SysError(SysErr::ESPIPE))
    } else if t == InodeFileType::CharacterDevice {
        Ok(0)
    } else if whence != SEEK_SET && whence != SEEK_CUR && whence != SEEK_END {
        Err(Error::SysError(SysErr::EINVAL))
    } else if t == InodeFileType::Directory {
        if whence != SEEK_END && offset == 0 {
            Ok(base as i64)
        } else {
            Err(Error::SysError(SysErr::EINVAL))
        }
    } else if (t == InodeFileType::RegularFile || (t == InodeFileType::BlockDevice && whence != SEEK_END))
        && ValidOffset(base + offset) {
        Ok((base + offset) as i64)
    } else {
        Err(Error::SysError(SysErr::EINVAL))
    }
}

/// Computes where a seek on the file behind `d` leads to.
pub fn SeekWithDirCursor(d: &Dirent, whence: i32, current: i64, offset: i64) -> (r: Result<i64, Error>)
    ensures
        r == SeekTarget(*d, whence, current, offset),
{
    match d.Inode.Type {
        InodeFileType::Pipe | InodeFileType::Socket => {
            return Err(Error::SysError(SysErr::ESPIPE));
        },
        InodeFileType::CharacterDevice => {
            return Ok(0);
        },
        _ => {},
    }
    if whence != SEEK_SET && whence != SEEK_CUR && whence != SEEK_END {
        return Err(Error::SysError(SysErr::EINVAL));
    }
    let base: i64 = if whence == SEEK_SET {
        0
    } else if whence == SEEK_CUR {
        current
    } else {
        d.Inode.Attr.Size
    };
    let seeks = match d.Inode.Type {
        InodeFileType::Directory => {
            if whence != SEEK_END && offset == 0 {
                return Ok(base);
            }
            return Err(Error::SysError(SysErr::EINVAL));
        },
        InodeFileType::RegularFile => true,
        InodeFileType::BlockDevice => whence != SEEK_END,
        _ => false,
    };
    if !seeks {
        return Err(Error::SysError(SysErr::EINVAL));
    }
    match base.checked_add(offset) {
        Some(o) => {
            if o < 0 {
                Err(Error::SysError(SysErr::EINVAL))
            } else {
                Ok(o)
            }
        },
        None => Err(Error::SysError(SysErr::EINVAL)),
    }
}

} // verus!
