//! Exact expected values for the pure translation functions.

use gpgfs_rust::attr::{FileAttr, FileType, StatRecord};
use gpgfs_rust::filesystem::{statfs_to_fuse, GpgFS, RawStatfs, Statfs};

#[test]
fn test_mode_to_filetype_values() {
    assert_eq!(GpgFS::mode_to_filetype(0o100644), Some(FileType::RegularFile));
    assert_eq!(GpgFS::mode_to_filetype(0o040755), Some(FileType::Directory));
    assert_eq!(GpgFS::mode_to_filetype(0o120777), Some(FileType::Symlink));
    assert_eq!(GpgFS::mode_to_filetype(0o060660), Some(FileType::BlockDevice));
    assert_eq!(GpgFS::mode_to_filetype(0o020620), Some(FileType::CharDevice));
    assert_eq!(GpgFS::mode_to_filetype(0o010600), Some(FileType::NamedPipe));
    assert_eq!(GpgFS::mode_to_filetype(0o140755), Some(FileType::Socket));
    assert_eq!(GpgFS::mode_to_filetype(0o000644), None);
    assert_eq!(GpgFS::mode_to_filetype(0o170000), None);
}

#[test]
fn test_stat_to_fuse_record() {
    let fs = GpgFS { encrypted_directory: Vec::new() };
    let stat = StatRecord {
        mode: 0o100751,
        // Wider than 32 bits: the link count is carried at 32 bits.
        nlink: 0x1_0000_0002,
        uid: 1000,
        gid: 1001,
        rdev: 0x501,
        size: 31,
        blocks: 8,
        atime_sec: 1_600_000_001,
        atime_nsec: 11,
        mtime_sec: 1_600_000_002,
        mtime_nsec: 22,
        ctime_sec: 1_600_000_003,
        ctime_nsec: 33,
    };
    let attr = fs.stat_to_fuse(stat);
    let expected = FileAttr {
        size: 31,
        blocks: 8,
        atime_sec: 1_600_000_001,
        atime_nsec: 11,
        mtime_sec: 1_600_000_002,
        mtime_nsec: 22,
        ctime_sec: 1_600_000_003,
        ctime_nsec: 33,
        crtime_sec: 0,
        crtime_nsec: 0,
        kind: FileType::RegularFile,
        perm: 0o751,
        nlink: 2,
        uid: 1000,
        gid: 1001,
        rdev: 0x501,
        flags: 0,
    };
    assert_eq!(attr, expected);
}

#[test]
fn test_statfs_to_fuse_record() {
    let raw = RawStatfs {
        blocks: 1000,
        bfree: 900,
        bavail: 800,
        files: 700,
        ffree: 600,
        // Wider than 32 bits: the portable field keeps the low 32.
        bsize: 0x1_0000_1000,
        namelen: 255,
        frsize: 4096,
    };
    let expected = Statfs {
        blocks: 1000,
        bfree: 900,
        bavail: 800,
        files: 700,
        ffree: 600,
        bsize: 0x1000,
        namelen: 255,
        frsize: 4096,
    };
    assert_eq!(statfs_to_fuse(raw), expected);
}

#[test]
fn test_real_path_joins_under_root() {
    let fs = GpgFS { encrypted_directory: b"/enc".to_vec() };
    assert_eq!(fs.real_path(&b"/a/b".to_vec()), b"/enc/a/b".to_vec());
    assert_eq!(fs.real_path(&b"/".to_vec()), b"/enc/".to_vec());
    assert_eq!(fs.real_path(&b"//x".to_vec()), b"/enc/x".to_vec());
}
