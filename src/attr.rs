//! The fixed metadata of the two entries: the root directory and the file.
use vstd::prelude::*;

verus! {

/// Identifier of the root directory.
pub const ROOT_INO: u64 = 1;

/// Identifier of the single file.
pub const FILE_INO: u64 = 2;

/// What an entry is.
#[derive(Clone, Copy, Debug, PartialEq, Eq, Structural)]
pub enum FileKind {
    Directory,
    RegularFile,
}

/// The attributes reported for an entry. Timestamps are seconds since the
/// Unix epoch.
#[derive(Clone, Copy, Debug, PartialEq, Eq, Structural)]
pub struct FileAttrs {
    pub ino: u64,
    pub size: u64,
    pub blocks: u64,
    pub atime_secs: u64,
    pub mtime_secs: u64,
    pub ctime_secs: u64,
    pub crtime_secs: u64,
    pub kind: FileKind,
    pub perm: u16,
    pub nlink: u32,
    pub uid: u32,
    pub gid: u32,
    pub rdev: u32,
    pub flags: u32,
    pub blksize: u32,
}

/// The attributes of the root directory.
pub open spec fn dir_attrs_spec() -> FileAttrs {
    FileAttrs {
        ino: ROOT_INO,
        size: 0,
        blocks: 0,
        atime_secs: 0,
        mtime_secs: 0,
        ctime_secs: 0,
        crtime_secs: 0,
        kind: FileKind::Directory,
        perm: 0o755,
        nlink: 2,
        uid: 501,
        gid: 20,
        rdev: 0,
        flags: 0,
        blksize: 512,
    }
}

/// The attributes of the file, which advertises `size` bytes.
pub open spec fn file_attrs_spec(size: u64) -> FileAttrs {
    FileAttrs {
        ino: FILE_INO,
        size: size,
        blocks: 1,
        atime_secs: 0,
        mtime_secs: 0,
        ctime_secs: 0,
        crtime_secs: 0,
        kind: FileKind::RegularFile,
        perm: 0o644,
        nlink: 1,
        uid: 501,
        gid: 20,
        rdev: 0,
        flags: 0,
        blksize: 512,
    }
}

/// Builds the attributes of the root directory.
pub fn dir_attrs() -> (r: FileAttrs)
    ensures
        r == dir_attrs_spec(),
{
    FileAttrs {
        ino: ROOT_INO,
        size: 0,
        blocks: 0,
        atime_secs: 0,
        mtime_secs: 0,
        ctime_secs: 0,
        crtime_secs: 0,
        kind: FileKind::Directory,
        perm: 0o755,
        nlink: 2,
        uid: 501,
        gid: 20,
        rdev: 0,
        flags: 0,
        blksize: 512,
    }
}

/// Builds the attributes of the file, advertising `size` bytes.
pub fn file_attrs(size: u64) -> (r: FileAttrs)
    ensures
        r == file_attrs_spec(size),
{
    FileAttrs {
        ino: FILE_INO,
        size,
        blocks: 1,
        atime_secs: 0,
        mtime_secs: 0,
        ctime_secs: 0,
        crtime_secs: 0,
        kind: FileKind::RegularFile,
        perm: 0o644,
        nlink: 1,
        uid: 501,
        gid: 20,
        rdev: 0,
        flags: 0,
        blksize: 512,
    }
}

} // verus!
