//! The relay: answers attribute, directory-listing, extended-attribute and
//! filesystem-statistics requests by translating them into native calls
//! against the real tree under the configured root.

use vstd::prelude::*;

use crate::attr::{attr_of_stat, file_type_of_mode, kind_of_mode, mode_valid, FileAttr, FileType,
    StatRecord, PERM_MASK, S_IFBLK, S_IFCHR, S_IFDIR, S_IFIFO, S_IFLNK, S_IFMT, S_IFREG,
    S_IFSOCK};
use crate::paths::{copy_bytes, is_absolute, join_real, join_virtual, lemma_child_absolute,
    real_path_of};
use crate::sys;

verus! {

/// Raw OS error code: low-level input/output error.
pub const EIO: i32 = 5;

/// Raw OS error code: bad file descriptor.
pub const EBADF: i32 = 9;

/// Raw OS error code: invalid argument.
pub const EINVAL: i32 = 22;

/// The relay instance. It holds nothing but the real root: the canonical
/// path of the directory every virtual path is resolved against.
pub struct GpgFS {
    pub encrypted_directory: Vec<u8>,
}

/// An open directory stream, scoped between an `opendir` and the matching
/// `releasedir`; reading through a released handle fails and never silently
/// succeeds.
pub struct DirHandle {
    stream: Option<nix::dir::OwningIter>,
}

impl DirHandle {
    /// Whether the handle still owns its directory stream.
    pub closed spec fn is_open(&self) -> bool {
        self.stream is Some
    }
}

/// A raw directory entry as one read of the directory stream yields it: the
/// bare name and the type hint, where the filesystem supplied one.
#[derive(Debug)]
pub struct RawDirEntry {
    pub name: Vec<u8>,
    pub hint: Option<FileType>,
}

/// A directory entry as the protocol layer consumes it.
#[derive(Debug, PartialEq, Eq)]
pub struct DirectoryEntry {
    pub name: Vec<u8>,
    pub kind: FileType,
}

/// An extended-attribute query result: the value's bytes, or only the byte
/// count where the caller asked for the size.
#[derive(Debug, PartialEq, Eq)]
pub enum Xattr {
    Size(u32),
    Data(Vec<u8>),
}

/// Native filesystem-statistics fields at their native widths.
#[derive(Clone, Copy, Debug, PartialEq, Eq, Structural)]
pub struct RawStatfs {
    pub blocks: u64,
    pub bfree: u64,
    pub bavail: u64,
    pub files: u64,
    pub ffree: u64,
    pub bsize: i64,
    pub namelen: i64,
    pub frsize: i64,
}

/// The portable filesystem-statistics record the protocol layer consumes.
#[derive(Clone, Copy, Debug, PartialEq, Eq, Structural)]
pub struct Statfs {
    pub blocks: u64,
    pub bfree: u64,
    pub bavail: u64,
    pub files: u64,
    pub ffree: u64,
    pub bsize: u32,
    pub namelen: u32,
    pub frsize: u32,
}

/// The portable statistics record derived from the native one: every field
/// carried over, narrowed where the portable width is smaller.
pub open spec fn statfs_of_raw(s: RawStatfs) -> Statfs {
    Statfs {
        blocks: s.blocks,
        bfree: s.bfree,
        bavail: s.bavail,
        files: s.files,
        ffree: s.ffree,
        bsize: s.bsize as u32,
        namelen: s.namelen as u32,
        frsize: s.frsize as u32,
    }
}

/// The kind reported for a directory entry: the protocol has no socket
/// representation, so a socket is reported as a named pipe.
pub open spec fn reported_kind(k: FileType) -> FileType {
    if k == FileType::Socket {
        FileType::NamedPipe
    } else {
        k
    }
}

/// The kind a fallback status call reports for a valid mode field.
pub open spec fn fallback_kind(mode: u32) -> FileType
    recommends
        mode_valid(mode),
{
    reported_kind(kind_of_mode(mode))
}

/// An attribute record is valid when some valid native status record
/// translates to it.
pub open spec fn valid_attr(a: FileAttr) -> bool {
    exists|st: StatRecord| mode_valid(st.mode) && a == #[trigger] attr_of_stat(st)
}

/// A statistics record is valid when it is the image of some native
/// statistics record under the field-for-field translation.
pub open spec fn valid_statfs(s: Statfs) -> bool {
    exists|raw: RawStatfs| s == #[trigger] statfs_of_raw(raw)
}

/// The kind reported for an entry: the demotion of a socket to a named pipe,
/// applied to what the hint or the fallback found.
pub fn demote_socket(k: FileType) -> (r: FileType)
    ensures
        r == reported_kind(k),
{
    match k {
        FileType::Socket => FileType::NamedPipe,
        _ => k,
    }
}

/// A buffer of `n` zero bytes.
fn zero_bytes(n: usize) -> (r: Vec<u8>)
    ensures
        r@.len() == n,
{
    let mut v: Vec<u8> = Vec::new();
    while v.len() < n
        invariant
            v@.len() <= n,
        decreases n - v@.len(),
    {
        v.push(0);
    }
    v
}

/// The portable statistics record for a native one, field for field.
pub fn statfs_to_fuse(statfs: RawStatfs) -> (r: Statfs)
    ensures
        r == statfs_of_raw(statfs),
{
    Statfs {
        blocks: statfs.blocks,
        bfree: statfs.bfree,
        bavail: statfs.bavail,
        files: statfs.files,
        ffree: statfs.ffree,
        bsize: statfs.bsize as u32,
        namelen: statfs.namelen as u32,
        frsize: statfs.frsize as u32,
    }
}

impl GpgFS {
    /// The real path a virtual path stands for.
    pub fn real_path(&self, partial: &Vec<u8>) -> (r: Vec<u8>)
        requires
            is_absolute(partial@),
        ensures
            r@ == real_path_of(self.encrypted_directory@, partial@),
    {
        join_real(&self.encrypted_directory, partial)
    }

    /// The entry kind a native mode field selects, or `None` where its type
    /// bits are none of the known patterns.
    pub fn mode_to_filetype(mode: u32) -> (r: Option<FileType>)
        ensures
            r == file_type_of_mode(mode),
    {
        let t: u32 = mode & S_IFMT;
        if t == S_IFDIR {
            Some(FileType::Directory)
        } else if t == S_IFREG {
            Some(FileType::RegularFile)
        } else if t == S_IFLNK {
            Some(FileType::Symlink)
        } else if t == S_IFBLK {
            Some(FileType::BlockDevice)
        } else if t == S_IFCHR {
            Some(FileType::CharDevice)
        } else if t == S_IFIFO {
            Some(FileType::NamedPipe)
        } else if t == S_IFSOCK {
            Some(FileType::Socket)
        } else {
            None
        }
    }

    /// The portable attribute record for a native status record.
    pub fn stat_to_fuse(&self, stat: StatRecord) -> (r: FileAttr)
        requires
            mode_valid(stat.mode),
        ensures
            r == attr_of_stat(stat),
    {
        let kind = GpgFS::mode_to_filetype(stat.mode).unwrap();
        FileAttr {
            size: stat.size as u64,
            blocks: stat.blocks as u64,
            atime_sec: stat.atime_sec as u64,
            atime_nsec: stat.atime_nsec as u32,
            mtime_sec: stat.mtime_sec as u64,
            mtime_nsec: stat.mtime_nsec as u32,
            ctime_sec: stat.ctime_sec as u64,
            ctime_nsec: stat.ctime_nsec as u32,
            crtime_sec: 0,
            crtime_nsec: 0,
            kind,
            perm: (stat.mode & PERM_MASK) as u16,
            nlink: stat.nlink as u32,
            uid: stat.uid,
            gid: stat.gid,
            rdev: stat.rdev as u32,
            flags: 0,
        }
    }

    /// Queries the real path behind a virtual path and translates the status
    /// record; an unrecognized mode fails the one request with `EIO`.
    pub fn stat_real(&self, path: &Vec<u8>) -> (r: Result<FileAttr, i32>)
        requires
            is_absolute(path@),
        ensures
            r matches Ok(a) ==> valid_attr(a),
    {
        let target = self.real_path(path);
        match sys::sys_lstat(&target) {
            Ok(stat) => self.translate_stat(stat),
            Err(e) => Err(e),
        }
    }

    /// Translates one status record, recoverably: a valid mode gives exactly
    /// the derived attribute record, an unrecognized one fails the one
    /// request with `EIO`.
    fn translate_stat(&self, stat: StatRecord) -> (r: Result<FileAttr, i32>)
        ensures
            mode_valid(stat.mode) ==> r == Ok::<FileAttr, i32>(attr_of_stat(stat)),
            !mode_valid(stat.mode) ==> r == Err::<FileAttr, i32>(EIO),
            r matches Ok(a) ==> valid_attr(a),
    {
        if GpgFS::mode_to_filetype(stat.mode).is_some() {
            Ok(self.stat_to_fuse(stat))
        } else {
            Err(EIO)
        }
    }

    /// Attribute lookup: by open descriptor where one is given, else by
    /// virtual path.
    pub fn getattr(&self, path: &Vec<u8>, fh: Option<u64>) -> (r: Result<FileAttr, i32>)
        requires
            fh is None ==> is_absolute(path@),
        ensures
            r matches Ok(a) ==> valid_attr(a),
    {
        match fh {
            Some(handle) => {
                match sys::sys_fstat(handle as i32) {
                    Ok(stat) => self.translate_stat(stat),
                    Err(e) => Err(e),
                }
            },
            None => self.stat_real(path),
        }
    }

    /// Extended-attribute get: a size-only query where the requested size is
    /// zero, else a data query into a buffer of exactly that capacity; the
    /// data returned never exceeds the requested size.
    pub fn getxattr(&self, path: &Vec<u8>, name: &Vec<u8>, size: u32) -> (r: Result<Xattr, i32>)
        requires
            is_absolute(path@),
        ensures
            r matches Ok(x) ==> ((size == 0) <==> x is Size),
            r matches Ok(x) ==> (x matches Xattr::Data(d) ==> d@.len() <= size),
    {
        let target = self.real_path(path);
        if size > 0 {
            let mut data = zero_bytes(size as usize);
            match sys::sys_lgetxattr_data(&target, name, &mut data) {
                Ok(nread) => {
                    data.truncate(nread);
                    Ok(Xattr::Data(data))
                },
                Err(e) => Err(e),
            }
        } else {
            match sys::sys_lgetxattr_size(&target, name) {
                Ok(nbytes) => Ok(Xattr::Size(nbytes as u32)),
                Err(e) => Err(e),
            }
        }
    }

    /// Opens the real directory behind a virtual path; the handle returned
    /// owns the entry stream until `releasedir`.
    pub fn opendir(&self, path: &Vec<u8>) -> (r: Result<DirHandle, i32>)
        requires
            is_absolute(path@),
        ensures
            r matches Ok(h) ==> h.is_open(),
    {
        let target = self.real_path(path);
        match sys::sys_opendir(&target) {
            Ok(stream) => Ok(DirHandle { stream: Some(stream) }),
            Err(e) => Err(e),
        }
    }

    /// Closes a directory handle. The handle is closed afterwards in every
    /// case; releasing an already-closed handle fails with `EBADF`.
    pub fn releasedir(&self, fh: &mut DirHandle) -> (r: Result<(), i32>)
        ensures
            !final(fh).is_open(),
            r is Ok <==> old(fh).is_open(),
    {
        let was_open: bool = fh.stream.is_some();
        fh.stream = None;
        if was_open {
            Ok(())
        } else {
            Err(EBADF)
        }
    }

    /// Lists a directory through an open handle: reads the raw entries in
    /// the order the OS yields them, then resolves each one's kind. A closed
    /// handle fails with `EINVAL`; the handle stays usable afterwards
    /// exactly where it was usable before.
    pub fn readdir(&self, path: &Vec<u8>, fh: &mut DirHandle) -> (r: Result<
        Vec<DirectoryEntry>,
        i32,
    >)
        requires
            is_absolute(path@),
        ensures
            final(fh).is_open() == old(fh).is_open(),
            !old(fh).is_open() ==> r == Err::<Vec<DirectoryEntry>, i32>(EINVAL),
            r matches Ok(entries) ==> forall|i: int|
                0 <= i < entries@.len() ==> (#[trigger] entries@[i]).kind != FileType::Socket,
    {
        let mut taken: Option<nix::dir::OwningIter> = None;
        core::mem::swap(&mut fh.stream, &mut taken);
        match taken {
            None => Err(EINVAL),
            Some(mut stream) => {
                let raw = collect_raw(&mut stream);
                fh.stream = Some(stream);
                match raw {
                    Ok(raws) => self.resolve_entries(path, &raws),
                    Err(e) => Err(e),
                }
            },
        }
    }

    /// Resolves one raw entry: a usable type hint is mapped directly, an
    /// absent hint falls back to a status call on the entry's real path and
    /// takes the kind from the mode bits; either way a socket is reported as
    /// a named pipe. A failing fallback fails the one request.
    pub fn resolve_entry(&self, path: &Vec<u8>, raw: RawDirEntry) -> (r: Result<
        DirectoryEntry,
        i32,
    >)
        requires
            is_absolute(path@),
        ensures
            r matches Ok(e) ==> e.name@ == raw.name@,
            r matches Ok(e) ==> e.kind != FileType::Socket,
            raw.hint matches Some(k) ==> r == Ok::<DirectoryEntry, i32>(
                (DirectoryEntry { name: raw.name, kind: reported_kind(k) }),
            ),
            raw.hint is None ==> (r matches Ok(e) ==> exists|m: u32|
                mode_valid(m) && e.kind == #[trigger] fallback_kind(m)),
            r is Err ==> raw.hint is None,
    {
        let RawDirEntry { name, hint } = raw;
        match hint {
            Some(k) => Ok(DirectoryEntry { name, kind: demote_socket(k) }),
            None => {
                let child = join_virtual(path, &name);
                proof {
                    lemma_child_absolute(path@, name@);
                }
                let target = self.real_path(&child);
                match sys::sys_lstat(&target) {
                    Ok(stat) => {
                        match fallback_entry_kind(stat) {
                            Ok(kind) => Ok(DirectoryEntry { name, kind }),
                            Err(e) => Err(e),
                        }
                    },
                    Err(e) => Err(e),
                }
            },
        }
    }

    /// Resolves a whole raw listing. On success the listing holds exactly
    /// one entry per raw entry, in the same order and with the same name —
    /// nothing dropped, nothing duplicated; every entry with a usable hint
    /// carries that hint's reported kind, and no entry reports a socket. Any
    /// failure aborts the listing: no partial result is returned.
    pub fn resolve_entries(&self, path: &Vec<u8>, raws: &Vec<RawDirEntry>) -> (r: Result<
        Vec<DirectoryEntry>,
        i32,
    >)
        requires
            is_absolute(path@),
        ensures
            r matches Ok(entries) ==> entries@.len() == raws@.len(),
            r matches Ok(entries) ==> forall|i: int|
                0 <= i < raws@.len() ==> (#[trigger] entries@[i]).name@ == raws@[i].name@,
            r matches Ok(entries) ==> forall|i: int|
                0 <= i < raws@.len() ==> (#[trigger] entries@[i]).kind != FileType::Socket,
            r matches Ok(entries) ==> forall|i: int|
                0 <= i < raws@.len() && (#[trigger] raws@[i]).hint is Some
                    ==> entries@[i].kind == reported_kind(raws@[i].hint.unwrap()),
            (forall|i: int| 0 <= i < raws@.len() ==> (#[trigger] raws@[i]).hint is Some)
                ==> r is Ok,
            r is Err ==> exists|i: int|
                0 <= i < raws@.len() && (#[trigger] raws@[i]).hint is None,
    {
        let mut entries: Vec<DirectoryEntry> = Vec::new();
        let mut i: usize = 0;
        while i < raws.len()
            invariant
                is_absolute(path@),
                0 <= i <= raws@.len(),
                entries@.len() == i,
                forall|j: int| 0 <= j < i ==> (#[trigger] entries@[j]).name@ == raws@[j].name@,
                forall|j: int| 0 <= j < i ==> (#[trigger] entries@[j]).kind != FileType::Socket,
                forall|j: int|
                    0 <= j < i && (#[trigger] raws@[j]).hint is Some
                        ==> entries@[j].kind == reported_kind(raws@[j].hint.unwrap()),
            decreases raws@.len() - i,
        {
            let name = copy_bytes(&raws[i].name);
            let raw = RawDirEntry { name, hint: raws[i].hint };
            match self.resolve_entry(path, raw) {
                Ok(entry) => entries.push(entry),
                Err(e) => {
                    // The failing entry had no usable hint.
                    proof {
                        assert(raws@[i as int].hint is None);
                    }
                    return Err(e);
                },
            }
            i = i + 1;
        }
        Ok(entries)
    }

    /// Filesystem statistics for the real path behind a virtual path, copied
    /// field for field into the portable record.
    pub fn statfs(&self, path: &Vec<u8>) -> (r: Result<Statfs, i32>)
        requires
            is_absolute(path@),
        ensures
            r matches Ok(s) ==> valid_statfs(s),
    {
        let target = self.real_path(path);
        match sys::sys_statfs(&target) {
            Ok(raw) => {
                let s = statfs_to_fuse(raw);
                // The native record witnesses the translation.
                proof {
                    assert(s == statfs_of_raw(raw));
                }
                Ok(s)
            },
            Err(e) => Err(e),
        }
    }
}

/// The kind a fallback status record yields for a directory entry: exactly
/// the demoted kind of its mode bits, or `EIO` where the mode is none of the
/// known types.
fn fallback_entry_kind(stat: StatRecord) -> (r: Result<FileType, i32>)
    ensures
        mode_valid(stat.mode) ==> r == Ok::<FileType, i32>(fallback_kind(stat.mode)),
        !mode_valid(stat.mode) ==> r == Err::<FileType, i32>(EIO),
{
    match GpgFS::mode_to_filetype(stat.mode) {
        Some(k) => Ok(demote_socket(k)),
        None => Err(EIO),
    }
}

/// Drains the directory stream: the raw entries in the order the OS yields
/// them, or the first error met.
fn collect_raw(stream: &mut nix::dir::OwningIter) -> (r: Result<Vec<RawDirEntry>, i32>) {
    let mut raws: Vec<RawDirEntry> = Vec::new();
    // More entries than fit in a `usize` cannot be held in one listing; a
    // stream that long fails the request rather than looping forever.
    let mut budget: usize = usize::MAX;
    while budget > 0
        decreases budget,
    {
        budget = budget - 1;
        match sys::sys_readdir(stream) {
            Ok(Some(entry)) => {
                let name = sys::sys_entry_name(&entry);
                let hint = sys::sys_entry_type_hint(&entry);
                raws.push(RawDirEntry { name, hint });
            },
            Ok(None) => {
                return Ok(raws);
            },
            Err(e) => {
                return Err(e);
            },
        }
    }
    Err(EIO)
}

} // verus!
