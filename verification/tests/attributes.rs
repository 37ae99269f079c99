use passthrufs::attr::file_kind;
use passthrufs::{file_attr, ttl, FileAttr, FileKind, FsError, HostMetadata, PassthruFS, Timestamp};

fn sample(is_dir: bool, ino: u64, size: u64) -> HostMetadata {
    HostMetadata {
        is_dir,
        st_ino: ino,
        st_size: size,
        st_blocks: 8,
        st_atime: 1_600_000_001,
        st_atime_nsec: 123_456_789,
        st_mtime: 1_600_000_002,
        st_mtime_nsec: 5,
        st_ctime: 1_600_000_003,
        st_ctime_nsec: 999_999_999,
        st_mode: 0o100644,
        st_nlink: 2,
        st_uid: 1000,
        st_gid: 1001,
        st_rdev: 0,
    }
}

#[test]
fn file_attr_copies_every_field() {
    let attr = file_attr(&sample(false, 42, 4));
    let expected = FileAttr {
        ino: 42,
        size: 4,
        blocks: 8,
        atime: Timestamp { sec: 1_600_000_001, nsec: 123_456_789 },
        mtime: Timestamp { sec: 1_600_000_002, nsec: 5 },
        ctime: Timestamp { sec: 1_600_000_003, nsec: 999_999_999 },
        crtime: Timestamp { sec: 0, nsec: 0 },
        kind: FileKind::RegularFile,
        perm: 0o100644,
        nlink: 2,
        uid: 1000,
        gid: 1001,
        rdev: 0,
        flags: 0,
    };
    assert_eq!(attr, expected);
}

#[test]
fn file_attr_reports_directories() {
    let attr = file_attr(&sample(true, 9, 4096));
    assert_eq!(attr.kind, FileKind::Directory);
    assert_eq!(attr.ino, 9);
    assert_eq!(attr.size, 4096);
}

#[test]
fn file_attr_narrows_wide_fields_to_their_low_bits() {
    let mut meta = sample(false, 3, 0);
    meta.st_mode = 0x0012_81a4;
    meta.st_nlink = 0x0000_0001_0000_0007;
    meta.st_rdev = 0xffff_ffff_0000_0103;
    let attr = file_attr(&meta);
    assert_eq!(attr.perm, 0x81a4);
    assert_eq!(attr.nlink, 7);
    assert_eq!(attr.rdev, 0x103);
}

#[test]
fn creation_time_and_flags_are_zero() {
    let attr = file_attr(&sample(false, 3, 10));
    assert_eq!(attr.crtime, Timestamp { sec: 0, nsec: 0 });
    assert_eq!(attr.flags, 0);
}

#[test]
fn file_kind_knows_two_kinds() {
    assert_eq!(file_kind(true), FileKind::Directory);
    assert_eq!(file_kind(false), FileKind::RegularFile);
}

#[test]
fn ttl_is_one_second() {
    assert_eq!(ttl(), Timestamp { sec: 1, nsec: 0 });
}

#[test]
fn stat_derives_the_record_from_what_the_host_found() {
    let meta = sample(true, 77, 0);
    assert_eq!(PassthruFS::stat(Ok(meta)), Ok(file_attr(&meta)));
}

#[test]
fn stat_passes_the_host_failure_on() {
    assert_eq!(PassthruFS::stat(Err(FsError::NotFound)), Err(FsError::NotFound));
    assert_eq!(PassthruFS::stat(Err(FsError::IOError)), Err(FsError::IOError));
}

#[test]
fn getattr_answers_for_the_root_only() {
    let fs = PassthruFS::new(b"/srv/source".to_vec());
    let meta = sample(true, 1234, 4096);
    assert_eq!(fs.getattr(1, Ok(meta)), Ok(file_attr(&meta)));
    assert_eq!(fs.getattr(2, Ok(meta)), Err(FsError::NotFound));
    assert_eq!(fs.getattr(1234, Ok(meta)), Err(FsError::NotFound));
    assert_eq!(fs.getattr(0, Ok(meta)), Err(FsError::NotFound));
}

#[test]
fn getattr_reports_the_host_failure_for_the_root() {
    let fs = PassthruFS::new(b"/srv/source".to_vec());
    assert_eq!(fs.getattr(1, Err(FsError::IOError)), Err(FsError::IOError));
    assert_eq!(fs.getattr(1, Err(FsError::NotFound)), Err(FsError::NotFound));
    assert_eq!(fs.getattr(5, Err(FsError::IOError)), Err(FsError::NotFound));
}
