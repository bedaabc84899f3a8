//! The trusted boundary to the operating system. Every native call the relay
//! makes lives here, one wrapper per call; everything outside this module is
//! verified against the contracts below. The results of these calls depend on
//! the state of the real filesystem, so the contracts state only what holds
//! of every outcome; each error is the raw OS error code.

use vstd::prelude::*;

use crate::attr::{FileType, StatRecord};
use crate::filesystem::RawStatfs;

verus! {

#[verifier::external_type_specification]
#[verifier::external_body]
pub struct ExDirStream(nix::dir::OwningIter);

#[verifier::external_type_specification]
#[verifier::external_body]
pub struct ExDirEntry(nix::dir::Entry);

// Named in the entry stream's `Iterator` item type, which Verus reads when
// the stream type is declared; nothing here calls through it.
#[verifier::external_type_specification]
#[verifier::external_body]
pub struct ExErrno(nix::errno::Errno);

/// Relies on nix::sys::stat::lstat: on success the fields of the native
/// status record, each read at its native width and widened into
/// `StatRecord`; on failure the raw OS error code.
#[verifier::external_body]
pub(crate) fn sys_lstat(path: &Vec<u8>) -> (r: Result<StatRecord, i32>) {
    match nix::sys::stat::lstat(path.as_slice()) {
        Ok(st) => Ok(StatRecord {
            mode: st.st_mode as u32, nlink: st.st_nlink as u64,
            uid: st.st_uid as u32, gid: st.st_gid as u32, rdev: st.st_rdev as u64,
            size: st.st_size as i64, blocks: st.st_blocks as i64,
            atime_sec: st.st_atime as i64, atime_nsec: st.st_atime_nsec as i64,
            mtime_sec: st.st_mtime as i64, mtime_nsec: st.st_mtime_nsec as i64,
            ctime_sec: st.st_ctime as i64, ctime_nsec: st.st_ctime_nsec as i64,
        }),
        Err(e) => Err(e as i32),
    }
}

/// Relies on nix::sys::stat::fstat: as `sys_lstat`, for an open descriptor.
#[verifier::external_body]
pub(crate) fn sys_fstat(fd: i32) -> (r: Result<StatRecord, i32>) {
    match nix::sys::stat::fstat(fd) {
        Ok(st) => Ok(StatRecord {
            mode: st.st_mode as u32, nlink: st.st_nlink as u64,
            uid: st.st_uid as u32, gid: st.st_gid as u32, rdev: st.st_rdev as u64,
            size: st.st_size as i64, blocks: st.st_blocks as i64,
            atime_sec: st.st_atime as i64, atime_nsec: st.st_atime_nsec as i64,
            mtime_sec: st.st_mtime as i64, mtime_nsec: st.st_mtime_nsec as i64,
            ctime_sec: st.st_ctime as i64, ctime_nsec: st.st_ctime_nsec as i64,
        }),
        Err(e) => Err(e as i32),
    }
}

/// Relies on nix::dir::Dir::open (and into_iter): opens the path as a
/// directory, read-only, and hands back the owning entry stream; on failure
/// the raw OS error code.
#[verifier::external_body]
pub(crate) fn sys_opendir(path: &Vec<u8>) -> (r: Result<nix::dir::OwningIter, i32>) {
    let flags = nix::fcntl::OFlag::O_RDONLY | nix::fcntl::OFlag::O_DIRECTORY;
    match nix::dir::Dir::open(path.as_slice(), flags, nix::sys::stat::Mode::empty()) {
        Ok(d) => Ok(d.into_iter()),
        Err(e) => Err(e as i32),
    }
}

/// Relies on nix::dir::OwningIter::next (readdir): `Ok(Some)` is the next raw
/// entry of the stream, `Ok(None)` its clean end, `Err` the raw OS error
/// code.
#[verifier::external_body]
pub(crate) fn sys_readdir(stream: &mut nix::dir::OwningIter) -> (r: Result<
    Option<nix::dir::Entry>,
    i32,
>) {
    match stream.next() {
        Some(Ok(entry)) => Ok(Some(entry)),
        Some(Err(e)) => Err(e as i32),
        None => Ok(None),
    }
}

/// Relies on nix::dir::Entry::file_name: the entry's bare name, an arbitrary
/// byte sequence without the terminating NUL.
#[verifier::external_body]
pub(crate) fn sys_entry_name(entry: &nix::dir::Entry) -> (r: Vec<u8>) {
    entry.file_name().to_bytes().to_vec()
}

/// Relies on nix::dir::Entry::file_type: the raw directory-read type hint,
/// `None` where the filesystem supplies none; each hint carried over one for
/// one (a socket hint stays a socket here; demoting it is the enumerator's
/// decision).
#[verifier::external_body]
pub(crate) fn sys_entry_type_hint(entry: &nix::dir::Entry) -> (r: Option<FileType>) {
    match entry.file_type() {
        Some(nix::dir::Type::Directory) => Some(FileType::Directory),
        Some(nix::dir::Type::File) => Some(FileType::RegularFile),
        Some(nix::dir::Type::Symlink) => Some(FileType::Symlink),
        Some(nix::dir::Type::BlockDevice) => Some(FileType::BlockDevice),
        Some(nix::dir::Type::CharacterDevice) => Some(FileType::CharDevice),
        Some(nix::dir::Type::Fifo) => Some(FileType::NamedPipe),
        Some(nix::dir::Type::Socket) => Some(FileType::Socket),
        None => None,
    }
}

/// Relies on rustix::fs::lgetxattr called with an empty buffer: the byte
/// count the attribute's value occupies, or the raw OS error code.
#[verifier::external_body]
pub(crate) fn sys_lgetxattr_size(path: &Vec<u8>, name: &Vec<u8>) -> (r: Result<usize, i32>) {
    match rustix::fs::lgetxattr(path, name, &mut []) {
        Ok(n) => Ok(n),
        Err(e) => Err(e.raw_os_error()),
    }
}

/// Relies on rustix::fs::lgetxattr: fills the buffer with the attribute's
/// value and returns how many bytes were written, never more than the buffer
/// holds; the buffer keeps its length either way. The buffer must not be
/// empty: the call with an empty buffer is the size-only query, whose count
/// is not bounded by the buffer.
#[verifier::external_body]
pub(crate) fn sys_lgetxattr_data(path: &Vec<u8>, name: &Vec<u8>, buf: &mut Vec<u8>) -> (r: Result<
    usize,
    i32,
>)
    requires
        old(buf)@.len() > 0,
    ensures
        final(buf)@.len() == old(buf)@.len(),
        r matches Ok(n) ==> n <= old(buf)@.len(),
{
    match rustix::fs::lgetxattr(path, name, buf.as_mut_slice()) {
        Ok(n) => Ok(n),
        Err(e) => Err(e.raw_os_error()),
    }
}

/// Relies on rustix::fs::statfs: on success the native filesystem-statistics
/// fields, copied into `RawStatfs` at their native values; on failure the raw
/// OS error code.
#[verifier::external_body]
pub(crate) fn sys_statfs(path: &Vec<u8>) -> (r: Result<RawStatfs, i32>) {
    match rustix::fs::statfs(path) {
        Ok(s) => Ok(RawStatfs {
            blocks: s.f_blocks as u64, bfree: s.f_bfree as u64, bavail: s.f_bavail as u64,
            files: s.f_files as u64, ffree: s.f_ffree as u64,
            bsize: s.f_bsize as i64, namelen: s.f_namelen as i64, frsize: s.f_frsize as i64,
        }),
        Err(e) => Err(e.raw_os_error()),
    }
}

} // verus!
