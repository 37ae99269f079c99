//! Attribute records and their derivation from host metadata.

use vstd::prelude::*;

verus! {

/// The kind of a directory entry. Only two kinds are told apart: whatever the
/// host does not report as a directory is shown as a regular file.
#[derive(Clone, Copy, Debug, PartialEq, Eq, Structural)]
pub enum FileKind {
    Directory,
    RegularFile,
}

/// A point in time, or a duration, in seconds and nanoseconds.
#[derive(Clone, Copy, Debug, PartialEq, Eq, Structural)]
pub struct Timestamp {
    pub sec: i64,
    pub nsec: i32,
}

/// What the host reports about one path, as plain numbers.
#[derive(Clone, Copy, Debug, PartialEq, Eq, Structural)]
pub struct HostMetadata {
    pub is_dir: bool,
    pub st_ino: u64,
    pub st_size: u64,
    pub st_blocks: u64,
    pub st_atime: i64,
    pub st_atime_nsec: i64,
    pub st_mtime: i64,
    pub st_mtime_nsec: i64,
    pub st_ctime: i64,
    pub st_ctime_nsec: i64,
    pub st_mode: u32,
    pub st_nlink: u64,
    pub st_uid: u32,
    pub st_gid: u32,
    pub st_rdev: u64,
}

/// The attribute record handed to callers of the mount.
#[derive(Clone, Copy, Debug, PartialEq, Eq, Structural)]
pub struct FileAttr {
    pub ino: u64,
    pub size: u64,
    pub blocks: u64,
    pub atime: Timestamp,
    pub mtime: Timestamp,
    pub ctime: Timestamp,
    pub crtime: Timestamp,
    pub kind: FileKind,
    pub perm: u16,
    pub nlink: u32,
    pub uid: u32,
    pub gid: u32,
    pub rdev: u32,
    pub flags: u32,
}

/// The kind shown for an entry that the host does or does not call a directory.
pub open spec fn kind_of(is_dir: bool) -> FileKind {
    if is_dir {
        FileKind::Directory
    } else {
        FileKind::RegularFile
    }
}

/// A host time as a timestamp; the nanoseconds are narrowed to 32 bits.
pub open spec fn timestamp_of(sec: i64, nsec: i64) -> Timestamp {
    Timestamp { sec, nsec: nsec as i32 }
}

/// The attribute record that belongs to the given host metadata: every field
/// is the host's number, narrowed to the record's width where that is smaller.
/// The creation time is not known to the host and is zero, as are the flags.
pub open spec fn file_attr_spec(meta: HostMetadata) -> FileAttr {
    FileAttr {
        ino: meta.st_ino,
        size: meta.st_size,
        blocks: meta.st_blocks,
        atime: timestamp_of(meta.st_atime, meta.st_atime_nsec),
        mtime: timestamp_of(meta.st_mtime, meta.st_mtime_nsec),
        ctime: timestamp_of(meta.st_ctime, meta.st_ctime_nsec),
        crtime: Timestamp { sec: 0, nsec: 0 },
        kind: kind_of(meta.is_dir),
        perm: meta.st_mode as u16,
        nlink: meta.st_nlink as u32,
        uid: meta.st_uid,
        gid: meta.st_gid,
        rdev: meta.st_rdev as u32,
        flags: 0,
    }
}

/// How long a caller may trust an attribute record: one second.
pub fn ttl() -> (t: Timestamp)
    ensures
        t == (Timestamp { sec: 1, nsec: 0 }),
{
    Timestamp { sec: 1, nsec: 0 }
}

/// The entry kind for a host entry.
pub fn file_kind(is_dir: bool) -> (k: FileKind)
    ensures
        k == kind_of(is_dir),
{
    if is_dir {
        FileKind::Directory
    } else {
        FileKind::RegularFile
    }
}

fn timestamp(sec: i64, nsec: i64) -> (t: Timestamp)
    ensures
        t == timestamp_of(sec, nsec),
{
    Timestamp { sec, nsec: #[verifier::truncate] (nsec as i32) }
}

/// Derives the attribute record from host metadata.
pub fn file_attr(meta: &HostMetadata) -> (attr: FileAttr)
    ensures
        attr == file_attr_spec(*meta),
{
    FileAttr {
        ino: meta.st_ino,
        size: meta.st_size,
        blocks: meta.st_blocks,
        atime: timestamp(meta.st_atime, meta.st_atime_nsec),
        mtime: timestamp(meta.st_mtime, meta.st_mtime_nsec),
        ctime: timestamp(meta.st_ctime, meta.st_ctime_nsec),
        crtime: Timestamp { sec: 0, nsec: 0 },
        kind: file_kind(meta.is_dir),
        perm: #[verifier::truncate] (meta.st_mode as u16),
        nlink: #[verifier::truncate] (meta.st_nlink as u32),
        uid: meta.st_uid,
        gid: meta.st_gid,
        rdev: #[verifier::truncate] (meta.st_rdev as u32),
        flags: 0,
    }
}

/// Host numbers that fit the record's fields arrive unchanged.
pub proof fn lemma_file_attr_verbatim(meta: HostMetadata)
    requires
        meta.st_mode <= u16::MAX,
        meta.st_nlink <= u32::MAX,
        meta.st_rdev <= u32::MAX,
        i32::MIN <= meta.st_atime_nsec <= i32::MAX,
        i32::MIN <= meta.st_mtime_nsec <= i32::MAX,
        i32::MIN <= meta.st_ctime_nsec <= i32::MAX,
    ensures
        file_attr_spec(meta).perm == meta.st_mode,
        file_attr_spec(meta).nlink == meta.st_nlink,
        file_attr_spec(meta).rdev == meta.st_rdev,
        file_attr_spec(meta).atime.nsec == meta.st_atime_nsec,
        file_attr_spec(meta).mtime.nsec == meta.st_mtime_nsec,
        file_attr_spec(meta).ctime.nsec == meta.st_ctime_nsec,
        file_attr_spec(meta).atime.sec == meta.st_atime,
        file_attr_spec(meta).mtime.sec == meta.st_mtime,
        file_attr_spec(meta).ctime.sec == meta.st_ctime,
{
}

/// Outside those ranges the narrowed fields keep the low bits of the host's
/// number.
pub proof fn lemma_file_attr_low_bits(meta: HostMetadata)
    ensures
        file_attr_spec(meta).perm == meta.st_mode & 0xffff,
        file_attr_spec(meta).nlink == meta.st_nlink & 0xffff_ffff,
        file_attr_spec(meta).rdev == meta.st_rdev & 0xffff_ffff,
{
    let mode = meta.st_mode;
    let nlink = meta.st_nlink;
    let rdev = meta.st_rdev;
    assert(mode as u16 == mode & 0xffff) by (bit_vector);
    assert(nlink as u32 == nlink & 0xffff_ffff) by (bit_vector);
    assert(rdev as u32 == rdev & 0xffff_ffff) by (bit_vector);
}

} // verus!
