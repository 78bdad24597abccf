//! File kinds and file attributes as the platform records them.

use vstd::prelude::*;

verus! {

/// The bits of a mode that hold the file's kind.
pub const S_IFMT: u32 = 0o170000;

/// The kind bits of a named pipe.
pub const S_IFIFO: u32 = 0o010000;

/// The kind bits of a character device.
pub const S_IFCHR: u32 = 0o020000;

/// The kind bits of a directory.
pub const S_IFDIR: u32 = 0o040000;

/// The kind bits of a block device.
pub const S_IFBLK: u32 = 0o060000;

/// The kind bits of a regular file.
pub const S_IFREG: u32 = 0o100000;

/// The kind bits of a symbolic link.
pub const S_IFLNK: u32 = 0o120000;

/// The kind bits of a socket.
pub const S_IFSOCK: u32 = 0o140000;

/// The tag of a directory record that does not say what it names.
pub const DT_UNKNOWN: u8 = 0;

/// The tag of a record that names a named pipe.
pub const DT_FIFO: u8 = 1;

/// The tag of a record that names a character device.
pub const DT_CHR: u8 = 2;

/// The tag of a record that names a directory.
pub const DT_DIR: u8 = 4;

/// The tag of a record that names a block device.
pub const DT_BLK: u8 = 6;

/// The tag of a record that names a regular file.
pub const DT_REG: u8 = 8;

/// The tag of a record that names a symbolic link.
pub const DT_LNK: u8 = 10;

/// The tag of a record that names a socket.
pub const DT_SOCK: u8 = 12;

/// The kind of a file. Its view is a mode; only the bits under `S_IFMT` count.
#[derive(Copy, Clone, PartialEq, Eq, Hash, Debug)]
pub struct FileType {
    mode: u32,
}

impl View for FileType {
    type V = u32;

    closed spec fn view(&self) -> u32 {
        self.mode
    }
}

/// The mode that the tag of a directory record stands for; none for
/// `DT_UNKNOWN` and for any tag that names no kind.
pub open spec fn tag_mode(tag: u8) -> Option<u32> {
    if tag == DT_CHR {
        Some(S_IFCHR)
    } else if tag == DT_FIFO {
        Some(S_IFIFO)
    } else if tag == DT_LNK {
        Some(S_IFLNK)
    } else if tag == DT_REG {
        Some(S_IFREG)
    } else if tag == DT_SOCK {
        Some(S_IFSOCK)
    } else if tag == DT_DIR {
        Some(S_IFDIR)
    } else if tag == DT_BLK {
        Some(S_IFBLK)
    } else {
        None
    }
}

/// The mode of a file type that may be absent.
pub open spec fn opt_mode(t: Option<FileType>) -> Option<u32> {
    match t {
        Some(t) => Some(t@),
        None => None,
    }
}

impl FileType {
    /// The file type that a mode holds.
    pub fn from_mode(mode: u32) -> (t: FileType)
        ensures
            t@ == mode,
    {
        FileType { mode }
    }

    /// The file type that the tag of a directory record names, if it names one.
    pub fn from_tag(tag: u8) -> (t: Option<FileType>)
        ensures
            opt_mode(t) == tag_mode(tag),
    {
        if tag == DT_CHR {
            Some(FileType { mode: S_IFCHR })
        } else if tag == DT_FIFO {
            Some(FileType { mode: S_IFIFO })
        } else if tag == DT_LNK {
            Some(FileType { mode: S_IFLNK })
        } else if tag == DT_REG {
            Some(FileType { mode: S_IFREG })
        } else if tag == DT_SOCK {
            Some(FileType { mode: S_IFSOCK })
        } else if tag == DT_DIR {
            Some(FileType { mode: S_IFDIR })
        } else if tag == DT_BLK {
            Some(FileType { mode: S_IFBLK })
        } else {
            None
        }
    }

    /// Whether this is a directory.
    pub fn is_dir(&self) -> (yes: bool)
        ensures
            yes == (self@ & S_IFMT == S_IFDIR),
    {
        self.is(S_IFDIR)
    }

    /// Whether this is a regular file.
    pub fn is_file(&self) -> (yes: bool)
        ensures
            yes == (self@ & S_IFMT == S_IFREG),
    {
        self.is(S_IFREG)
    }

    /// Whether this is a symbolic link.
    pub fn is_symlink(&self) -> (yes: bool)
        ensures
            yes == (self@ & S_IFMT == S_IFLNK),
    {
        self.is(S_IFLNK)
    }

    /// Whether the kind is the one that `mode` names.
    pub fn is(&self, mode: u32) -> (yes: bool)
        ensures
            yes == (self@ & S_IFMT == mode),
    {
        self.mode & S_IFMT == mode
    }
}

/// A tag that names a kind is that kind's mode moved down by twelve bits, and
/// such a mode has no bit outside `S_IFMT`: a type made from a tag is of the
/// kind `S_IFx` exactly where the tag is `DT_x`.
pub proof fn lemma_tag_mode(tag: u8)
    ensures
        tag_mode(tag) matches Some(mode) ==> {
            &&& mode == (tag as u32) << 12
            &&& mode & S_IFMT == mode
        },
{
    assert(0o020000u32 == 2u32 << 12 && 0o020000u32 & 0o170000u32 == 0o020000u32) by (bit_vector);
    assert(0o010000u32 == 1u32 << 12 && 0o010000u32 & 0o170000u32 == 0o010000u32) by (bit_vector);
    assert(0o120000u32 == 10u32 << 12 && 0o120000u32 & 0o170000u32 == 0o120000u32) by (bit_vector);
    assert(0o100000u32 == 8u32 << 12 && 0o100000u32 & 0o170000u32 == 0o100000u32) by (bit_vector);
    assert(0o140000u32 == 12u32 << 12 && 0o140000u32 & 0o170000u32 == 0o140000u32) by (bit_vector);
    assert(0o040000u32 == 4u32 << 12 && 0o040000u32 & 0o170000u32 == 0o040000u32) by (bit_vector);
    assert(0o060000u32 == 6u32 << 12 && 0o060000u32 & 0o170000u32 == 0o060000u32) by (bit_vector);
}

/// What the platform records of a file at the moment it is asked.
#[derive(Clone, Copy, Debug)]
pub struct FileAttr {
    pub st_atime: i64,
    pub st_atime_nsec: i64,
    pub st_blksize: i64,
    pub st_blocks: i64,
    pub st_ctime: i64,
    pub st_ctime_nsec: i64,
    pub st_dev: u64,
    pub st_gid: u32,
    pub st_ino: u64,
    pub st_mode: u32,
    pub st_mtime: i64,
    pub st_mtime_nsec: i64,
    pub st_nlink: u64,
    pub st_rdev: u64,
    pub st_size: i64,
    pub st_uid: u32,
}

impl FileAttr {
    /// The kind of the file: its mode.
    pub fn file_type(&self) -> (t: FileType)
        ensures
            t@ == self.st_mode,
    {
        FileType { mode: self.st_mode }
    }
}

} // verus!
