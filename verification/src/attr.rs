//! The two metadata representations the relay translates between: the native
//! file-status record as the OS hands it out, and the portable attribute
//! record the filesystem protocol layer consumes.

use vstd::prelude::*;

verus! {

/// Mask selecting the file-type bits of a native mode field.
pub const S_IFMT: u32 = 0o170000;
/// Type bits of a socket.
pub const S_IFSOCK: u32 = 0o140000;
/// Type bits of a symbolic link.
pub const S_IFLNK: u32 = 0o120000;
/// Type bits of a regular file.
pub const S_IFREG: u32 = 0o100000;
/// Type bits of a block device.
pub const S_IFBLK: u32 = 0o060000;
/// Type bits of a directory.
pub const S_IFDIR: u32 = 0o040000;
/// Type bits of a character device.
pub const S_IFCHR: u32 = 0o020000;
/// Type bits of a named pipe.
pub const S_IFIFO: u32 = 0o010000;

/// Mask selecting the permission bits of a native mode field.
pub const PERM_MASK: u32 = 0o7777;

/// The kind of a filesystem entry, as the protocol layer knows it.
#[derive(Clone, Copy, Debug, PartialEq, Eq, Structural)]
pub enum FileType {
    NamedPipe,
    CharDevice,
    BlockDevice,
    Directory,
    RegularFile,
    Symlink,
    Socket,
}

/// A native file-status record, held at fixed widths: every field is read at
/// its native width and widened to the width here, never truncated.
#[derive(Clone, Copy, Debug, PartialEq, Eq, Structural)]
pub struct StatRecord {
    pub mode: u32,
    pub nlink: u64,
    pub uid: u32,
    pub gid: u32,
    pub rdev: u64,
    pub size: i64,
    pub blocks: i64,
    pub atime_sec: i64,
    pub atime_nsec: i64,
    pub mtime_sec: i64,
    pub mtime_nsec: i64,
    pub ctime_sec: i64,
    pub ctime_nsec: i64,
}

/// The portable attribute record the protocol layer consumes. Timestamps are
/// seconds-and-nanoseconds pairs measured from the epoch.
#[derive(Clone, Copy, Debug, PartialEq, Eq, Structural)]
pub struct FileAttr {
    pub size: u64,
    pub blocks: u64,
    pub atime_sec: u64,
    pub atime_nsec: u32,
    pub mtime_sec: u64,
    pub mtime_nsec: u32,
    pub ctime_sec: u64,
    pub ctime_nsec: u32,
    pub crtime_sec: u64,
    pub crtime_nsec: u32,
    pub kind: FileType,
    pub perm: u16,
    pub nlink: u32,
    pub uid: u32,
    pub gid: u32,
    pub rdev: u32,
    pub flags: u32,
}

/// The fixed mapping from the type bits of a native mode field to the entry
/// kind; `None` where the bit pattern is none of the known types.
pub open spec fn file_type_of_mode(mode: u32) -> Option<FileType> {
    let t = mode & S_IFMT;
    if t == S_IFDIR {
        Some(FileType::Directory)
    } else if t == S_IFREG {
        Some(FileType::RegularFile)
    } else if t == S_IFLNK {
        Some(FileType::Symlink)
    } else if t == S_IFBLK {
        Some(FileType::BlockDevice)
    } else if t == S_IFCHR {
        Some(FileType::CharDevice)
    } else if t == S_IFIFO {
        Some(FileType::NamedPipe)
    } else if t == S_IFSOCK {
        Some(FileType::Socket)
    } else {
        None
    }
}

/// A mode field is valid when its type bits form one of the known patterns.
/// The OS contract guarantees this of every status record it returns; the
/// relay still checks it and fails the one request rather than trusting it.
pub open spec fn mode_valid(mode: u32) -> bool {
    file_type_of_mode(mode) is Some
}

/// The kind a valid mode field selects.
pub open spec fn kind_of_mode(mode: u32) -> FileType
    recommends
        mode_valid(mode),
{
    file_type_of_mode(mode).unwrap()
}

/// The attribute record derived from a native status record: the kind and the
/// permission bits both come from the mode field, the link count is carried
/// at 32 bits, and the creation time (which the native record lacks) is the
/// epoch.
pub open spec fn attr_of_stat(st: StatRecord) -> FileAttr
    recommends
        mode_valid(st.mode),
{
    FileAttr {
        size: st.size as u64,
        blocks: st.blocks as u64,
        atime_sec: st.atime_sec as u64,
        atime_nsec: st.atime_nsec as u32,
        mtime_sec: st.mtime_sec as u64,
        mtime_nsec: st.mtime_nsec as u32,
        ctime_sec: st.ctime_sec as u64,
        ctime_nsec: st.ctime_nsec as u32,
        crtime_sec: 0,
        crtime_nsec: 0,
        kind: kind_of_mode(st.mode),
        perm: (st.mode & PERM_MASK) as u16,
        nlink: st.nlink as u32,
        uid: st.uid,
        gid: st.gid,
        rdev: st.rdev as u32,
        flags: 0,
    }
}

/// Every regular file carries the regular-file kind, every directory the
/// directory kind, and every symbolic link the symbolic-link kind: the kind
/// of a translated record follows the type bits of the native mode alone.
pub proof fn lemma_kind_follows_mode(st: StatRecord)
    requires
        mode_valid(st.mode),
    ensures
        st.mode & S_IFMT == S_IFREG ==> attr_of_stat(st).kind == FileType::RegularFile,
        st.mode & S_IFMT == S_IFDIR ==> attr_of_stat(st).kind == FileType::Directory,
        st.mode & S_IFMT == S_IFLNK ==> attr_of_stat(st).kind == FileType::Symlink,
        attr_of_stat(st).kind == kind_of_mode(st.mode),
{
}

/// A file of size N in the real tree is reported with size N: the size field
/// of a translated record is the native size, carried over unchanged for
/// every size the native record can hold.
pub proof fn lemma_size_carried(st: StatRecord)
    requires
        mode_valid(st.mode),
        0 <= st.size,
    ensures
        attr_of_stat(st).size == st.size,
{
}

} // verus!
