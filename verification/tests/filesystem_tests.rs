//! Exercises the relay against a real scratch tree.

use gpgfs_rust::attr::FileType;
use gpgfs_rust::filesystem::{DirectoryEntry, GpgFS, RawDirEntry, Xattr, EBADF, EINVAL};

use nix::fcntl::OFlag;
use nix::sys::stat::Mode;
use temp_dir::TempDir;

fn bytes(s: &str) -> Vec<u8> {
    s.as_bytes().to_vec()
}

fn path_bytes(dir: &TempDir) -> Vec<u8> {
    bytes(dir.path().to_str().unwrap())
}

fn joined(base: &[u8], name: &str) -> Vec<u8> {
    let mut p = base.to_vec();
    p.push(b'/');
    p.extend_from_slice(name.as_bytes());
    p
}

fn make_dir(path: &[u8]) {
    nix::unistd::mkdir(path, Mode::from_bits_truncate(0o755)).unwrap();
}

fn make_file(path: &[u8], content: &[u8]) {
    let fd = nix::fcntl::open(
        path,
        OFlag::O_WRONLY | OFlag::O_CREAT | OFlag::O_TRUNC,
        Mode::from_bits_truncate(0o644),
    )
    .unwrap();
    let mut written = 0;
    while written < content.len() {
        written += nix::unistd::write(fd, &content[written..]).unwrap();
    }
    nix::unistd::close(fd).unwrap();
}

fn make_symlink(target: &str, path: &[u8]) {
    nix::unistd::symlinkat(target, None, path).unwrap();
}

/// Lists the virtual root and returns the names, without the synthetic
/// current- and parent-directory entries.
fn list_names(fs: &GpgFS, vpath: &Vec<u8>) -> Vec<Vec<u8>> {
    let mut handle = fs.opendir(vpath).unwrap();
    let entries = fs.readdir(vpath, &mut handle).unwrap();
    fs.releasedir(&mut handle).unwrap();
    let mut names: Vec<Vec<u8>> = entries
        .iter()
        .map(|e| e.name.clone())
        .filter(|n| n.as_slice() != b"." && n.as_slice() != b"..")
        .collect();
    names.sort();
    names
}

#[test]
fn test_list_directory_entries() {
    let directory = TempDir::new().unwrap();
    let root = path_bytes(&directory);

    let encrypted = joined(&root, "encrypted");
    make_dir(&encrypted);
    make_dir(&joined(&encrypted, "sub-dir"));
    make_file(
        &joined(&encrypted, "example-file.txt"),
        b"This is some existing content.",
    );

    let fs = GpgFS { encrypted_directory: encrypted };
    let mut expected = vec![bytes("sub-dir"), bytes("example-file.txt")];
    expected.sort();
    assert_eq!(list_names(&fs, &bytes("/")), expected);
}

#[test]
fn test_attribute_kinds() {
    let directory = TempDir::new().unwrap();
    let root = path_bytes(&directory);
    make_file(&joined(&root, "plain.txt"), b"data");
    make_dir(&joined(&root, "sub"));
    make_symlink("plain.txt", &joined(&root, "link"));

    let fs = GpgFS { encrypted_directory: root };
    let file_attr = fs.getattr(&bytes("/plain.txt"), None).unwrap();
    assert_eq!(file_attr.kind, FileType::RegularFile);
    let dir_attr = fs.getattr(&bytes("/sub"), None).unwrap();
    assert_eq!(dir_attr.kind, FileType::Directory);
    let link_attr = fs.getattr(&bytes("/link"), None).unwrap();
    assert_eq!(link_attr.kind, FileType::Symlink);
}

#[test]
fn test_size_round_trip() {
    let directory = TempDir::new().unwrap();
    let root = path_bytes(&directory);
    let content = b"exactly thirty-one bytes long!!";
    assert_eq!(content.len(), 31);
    make_file(&joined(&root, "sized.bin"), content);

    let fs = GpgFS { encrypted_directory: root };
    let attr = fs.getattr(&bytes("/sized.bin"), None).unwrap();
    assert_eq!(attr.size, 31);
}

#[test]
fn test_getattr_by_descriptor() {
    let directory = TempDir::new().unwrap();
    let root = path_bytes(&directory);
    let file = joined(&root, "by-fd.txt");
    make_file(&file, b"12345");

    let fs = GpgFS { encrypted_directory: root };
    let fd = nix::fcntl::open(file.as_slice(), OFlag::O_RDONLY, Mode::empty()).unwrap();
    let attr = fs.getattr(&bytes("/by-fd.txt"), Some(fd as u64)).unwrap();
    nix::unistd::close(fd).unwrap();
    assert_eq!(attr.size, 5);
    assert_eq!(attr.kind, FileType::RegularFile);
}

#[test]
fn test_getattr_missing_path() {
    let directory = TempDir::new().unwrap();
    let fs = GpgFS { encrypted_directory: path_bytes(&directory) };
    let err = fs.getattr(&bytes("/no-such-entry"), None).unwrap_err();
    assert_eq!(err, 2);
}

#[test]
fn test_fallback_resolves_kind() {
    let directory = TempDir::new().unwrap();
    let root = path_bytes(&directory);
    make_file(&joined(&root, "needs-stat.txt"), b"x");
    make_dir(&joined(&root, "needs-stat-dir"));

    let fs = GpgFS { encrypted_directory: root };
    // An absent type hint must still resolve through the status call.
    let resolved = fs
        .resolve_entry(
            &bytes("/"),
            RawDirEntry { name: bytes("needs-stat.txt"), hint: None },
        )
        .unwrap();
    assert_eq!(resolved.kind, FileType::RegularFile);
    assert_eq!(resolved.name, bytes("needs-stat.txt"));

    let resolved_dir = fs
        .resolve_entry(
            &bytes("/"),
            RawDirEntry { name: bytes("needs-stat-dir"), hint: None },
        )
        .unwrap();
    assert_eq!(resolved_dir.kind, FileType::Directory);
}

#[test]
fn test_fallback_on_missing_entry_fails() {
    let directory = TempDir::new().unwrap();
    let fs = GpgFS { encrypted_directory: path_bytes(&directory) };
    let err = fs
        .resolve_entry(&bytes("/"), RawDirEntry { name: bytes("vanished"), hint: None })
        .unwrap_err();
    assert_eq!(err, 2);
}

#[test]
fn test_socket_hint_reported_as_named_pipe() {
    let directory = TempDir::new().unwrap();
    let fs = GpgFS { encrypted_directory: path_bytes(&directory) };
    let resolved = fs
        .resolve_entry(
            &bytes("/"),
            RawDirEntry { name: bytes("sock"), hint: Some(FileType::Socket) },
        )
        .unwrap();
    assert_eq!(resolved.kind, FileType::NamedPipe);
    let resolved_dir = fs
        .resolve_entry(
            &bytes("/"),
            RawDirEntry { name: bytes("d"), hint: Some(FileType::Directory) },
        )
        .unwrap();
    assert_eq!(resolved_dir.kind, FileType::Directory);
}

#[test]
fn test_resolve_entries_keeps_names_and_order() {
    let directory = TempDir::new().unwrap();
    let root = path_bytes(&directory);
    make_file(&joined(&root, "a.txt"), b"a");
    let fs = GpgFS { encrypted_directory: root };
    let raws = vec![
        RawDirEntry { name: bytes("zeta"), hint: Some(FileType::RegularFile) },
        RawDirEntry { name: bytes("a.txt"), hint: None },
        RawDirEntry { name: bytes("alpha"), hint: Some(FileType::Directory) },
    ];
    let entries = fs.resolve_entries(&bytes("/"), &raws).unwrap();
    assert_eq!(entries.len(), 3);
    assert_eq!(
        entries[0],
        DirectoryEntry { name: bytes("zeta"), kind: FileType::RegularFile }
    );
    assert_eq!(entries[1].name, bytes("a.txt"));
    assert_eq!(entries[1].kind, FileType::RegularFile);
    assert_eq!(
        entries[2],
        DirectoryEntry { name: bytes("alpha"), kind: FileType::Directory }
    );
}

#[test]
fn test_xattr_size_matches_data() {
    let directory = TempDir::new().unwrap();
    let root = path_bytes(&directory);
    let file = joined(&root, "attrd.txt");
    make_file(&file, b"x");
    // Not every filesystem supports user extended attributes; skip where the
    // scratch tree cannot hold one.
    if rustix::fs::lsetxattr(&file, "user.demo", b"hello", rustix::fs::XattrFlags::empty())
        .is_err()
    {
        return;
    }

    let fs = GpgFS { encrypted_directory: root };
    let size = match fs.getxattr(&bytes("/attrd.txt"), &bytes("user.demo"), 0).unwrap() {
        Xattr::Size(n) => n,
        Xattr::Data(_) => panic!("size query returned data"),
    };
    let data = match fs.getxattr(&bytes("/attrd.txt"), &bytes("user.demo"), 64).unwrap() {
        Xattr::Data(d) => d,
        Xattr::Size(_) => panic!("data query returned a size"),
    };
    assert_eq!(size as usize, data.len());
    assert_eq!(data, b"hello".to_vec());
}

#[test]
fn test_xattr_missing_fails() {
    let directory = TempDir::new().unwrap();
    let root = path_bytes(&directory);
    make_file(&joined(&root, "bare.txt"), b"x");
    let fs = GpgFS { encrypted_directory: root };
    assert!(fs.getxattr(&bytes("/bare.txt"), &bytes("user.absent"), 0).is_err());
    assert!(fs.getxattr(&bytes("/bare.txt"), &bytes("user.absent"), 16).is_err());
}

#[test]
fn test_scenario_listing_and_attrs() {
    let directory = TempDir::new().unwrap();
    let root = path_bytes(&directory);
    let encrypted = joined(&root, "encrypted");
    make_dir(&encrypted);
    make_dir(&joined(&encrypted, "sub-dir"));
    let content = b"a file body of thirty-one bytes";
    assert_eq!(content.len(), 31);
    make_file(&joined(&encrypted, "example-file.txt"), content);

    let fs = GpgFS { encrypted_directory: encrypted };
    let mut expected = vec![bytes("sub-dir"), bytes("example-file.txt")];
    expected.sort();
    assert_eq!(list_names(&fs, &bytes("/")), expected);

    let attr = fs.getattr(&bytes("/example-file.txt"), None).unwrap();
    assert_eq!(attr.kind, FileType::RegularFile);
    assert_eq!(attr.size, 31);
}

#[test]
fn test_closed_handle_fails() {
    let directory = TempDir::new().unwrap();
    let root = path_bytes(&directory);
    make_file(&joined(&root, "f"), b"x");
    let fs = GpgFS { encrypted_directory: root };

    let vroot = bytes("/");
    let mut handle = fs.opendir(&vroot).unwrap();
    fs.releasedir(&mut handle).unwrap();
    assert_eq!(fs.readdir(&vroot, &mut handle).unwrap_err(), EINVAL);
    assert_eq!(fs.releasedir(&mut handle).unwrap_err(), EBADF);
}

#[test]
fn test_opendir_on_file_fails() {
    let directory = TempDir::new().unwrap();
    let root = path_bytes(&directory);
    make_file(&joined(&root, "plain"), b"x");
    let fs = GpgFS { encrypted_directory: root };
    match fs.opendir(&bytes("/plain")) {
        Err(e) => assert_eq!(e, 20),
        Ok(_) => panic!("opened a regular file as a directory"),
    }
}

#[test]
fn test_statfs_reports_real_filesystem() {
    let directory = TempDir::new().unwrap();
    let fs = GpgFS { encrypted_directory: path_bytes(&directory) };
    let stats = fs.statfs(&bytes("/")).unwrap();
    assert!(stats.bsize > 0);
    assert!(stats.namelen > 0);
    assert!(stats.blocks > 0);
}
