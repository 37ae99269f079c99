//! The listing of the mount root: two pseudo-entries, then the host's entries,
//! each at a numbered position from which a later request can resume.

use crate::attr::{file_kind, kind_of, FileKind};
use vstd::prelude::*;

verus! {

/// One entry of the source directory as the host enumerated it.
#[derive(Clone, Debug, PartialEq, Eq)]
pub struct HostEntry {
    pub ino: u64,
    pub is_dir: bool,
    pub name: String,
}

/// One entry of a listing: the handle, the position of the entry in the full
/// listing, its kind and its name.
#[derive(Clone, Debug, PartialEq, Eq)]
pub struct DirEntry {
    pub ino: u64,
    pub offset: i64,
    pub kind: FileKind,
    pub name: String,
}

/// A listing entry as a value: what `DirEntry` holds, the name as its
/// characters.
pub ghost struct Listed {
    pub ino: u64,
    pub offset: int,
    pub kind: FileKind,
    pub name: Seq<char>,
}

impl View for DirEntry {
    type V = Listed;

    open spec fn view(&self) -> Listed {
        Listed { ino: self.ino, offset: self.offset as int, kind: self.kind, name: self.name@ }
    }
}

/// Whether a directory of `n` entries can be listed: with the two
/// pseudo-entries, every position must fit the machine's sizes and a signed
/// 64-bit cursor.
pub open spec fn listable(n: nat) -> bool {
    n + 2 <= usize::MAX && n + 2 <= i64::MAX
}

/// The number of entries in the full listing.
pub open spec fn full_len(children: Seq<HostEntry>) -> int {
    (children.len() + 2) as int
}

/// The entry at position `i` of the full listing: `.` and `..`, both with the
/// root's handle, then the host's entries in the host's order.
pub open spec fn entry_at(root: u64, children: Seq<HostEntry>, i: int) -> Listed
    recommends
        0 <= i < full_len(children),
{
    if i == 0 {
        Listed { ino: root, offset: 0, kind: FileKind::Directory, name: "."@ }
    } else if i == 1 {
        Listed { ino: root, offset: 1, kind: FileKind::Directory, name: ".."@ }
    } else {
        Listed {
            ino: children[i - 2].ino,
            offset: i,
            kind: kind_of(children[i - 2].is_dir),
            name: children[i - 2].name@,
        }
    }
}

/// The position at which a listing with the cursor `offset` begins. Zero
/// starts at the beginning; a position that was reported before resumes behind
/// it; a cursor past the end, or below -1, leaves nothing.
pub open spec fn first_position(children: Seq<HostEntry>, offset: i64) -> int {
    if offset == 0 {
        0
    } else if offset < -1 || offset + 1 > full_len(children) {
        full_len(children)
    } else {
        offset + 1
    }
}

/// The listing that the cursor `offset` yields: the entries of the full
/// listing from `first_position` on, each with its position there.
pub open spec fn listing_from(root: u64, children: Seq<HostEntry>, offset: i64) -> Seq<Listed> {
    let first = first_position(children, offset);
    Seq::new((full_len(children) - first) as nat, |j: int| entry_at(root, children, first + j))
}

/// The views of the entries of a listing.
pub open spec fn listed(entries: Seq<DirEntry>) -> Seq<Listed> {
    entries.map_values(|e: DirEntry| e@)
}

/// Whether the host's enumeration is short enough to be listed.
pub fn can_list(children: &Vec<HostEntry>) -> (ok: bool)
    ensures
        ok == listable(children@.len()),
{
    let n: usize = children.len();
    n <= usize::MAX - 2 && n as u64 <= 0x7fff_ffff_ffff_fffd
}

/// Builds the listing of the root for the cursor `offset` from the host's
/// enumeration of the source directory.
pub fn list_root(root: u64, offset: i64, children: &Vec<HostEntry>) -> (entries: Vec<DirEntry>)
    requires
        listable(children@.len()),
    ensures
        listed(entries@) == listing_from(root, children@, offset),
{
    let total: usize = children.len() + 2;
    let first: usize = if offset == 0 {
        0
    } else if offset < -1 || offset >= total as i64 {
        total
    } else {
        (offset + 1) as usize
    };
    let mut entries: Vec<DirEntry> = Vec::new();
    let mut i: usize = first;
    while i < total
        invariant
            first <= i <= total,
            total == children.len() + 2,
            total <= i64::MAX,
            entries.len() == i - first,
            forall|j: int|
                0 <= j < entries.len() ==> (#[trigger] entries[j])@ == entry_at(
                    root,
                    children@,
                    first + j,
                ),
        decreases total - i,
    {
        let entry = if i == 0 {
            DirEntry { ino: root, offset: 0, kind: FileKind::Directory, name: ".".to_owned() }
        } else if i == 1 {
            DirEntry { ino: root, offset: 1, kind: FileKind::Directory, name: "..".to_owned() }
        } else {
            let child = &children[i - 2];
            DirEntry {
                ino: child.ino,
                offset: i as i64,
                kind: file_kind(child.is_dir),
                name: child.name.clone(),
            }
        };
        assert(entry@ == entry_at(root, children@, i as int));
        entries.push(entry);
        i = i + 1;
    }
    assert(listed(entries@) =~= listing_from(root, children@, offset));
    entries
}

/// A listing from the beginning yields `.` and then `..`, both with the
/// root's handle and the kind of a directory, before anything else.
pub proof fn lemma_listing_starts_with_dots(root: u64, children: Seq<HostEntry>)
    ensures
        listing_from(root, children, 0).len() == children.len() + 2,
        listing_from(root, children, 0)[0] == (Listed {
            ino: root,
            offset: 0,
            kind: FileKind::Directory,
            name: "."@,
        }),
        listing_from(root, children, 0)[1] == (Listed {
            ino: root,
            offset: 1,
            kind: FileKind::Directory,
            name: ".."@,
        }),
        listing_from(root, children, 0)[0].name == seq!['.'],
        listing_from(root, children, 0)[1].name == seq!['.', '.'],
{
    reveal_strlit(".");
    reveal_strlit("..");
    assert("."@ =~= seq!['.']);
    assert(".."@ =~= seq!['.', '.']);
}

/// Every entry of a listing from the beginning reports its own index as its
/// position.
pub proof fn lemma_positions(root: u64, children: Seq<HostEntry>, i: int)
    requires
        0 <= i < full_len(children),
    ensures
        listing_from(root, children, 0)[i].offset == i,
        listing_from(root, children, 0)[i] == entry_at(root, children, i),
{
}

/// Resuming at the position of an entry that a listing reported yields
/// exactly the entries that follow it in the full listing: none twice, none
/// left out. Position zero is the exception, since a zero cursor means the
/// beginning.
pub proof fn lemma_resume_after(root: u64, children: Seq<HostEntry>, offset: i64)
    requires
        0 < offset < full_len(children),
    ensures
        listing_from(root, children, offset) == listing_from(root, children, 0).subrange(
            offset + 1,
            full_len(children),
        ),
{
    assert(listing_from(root, children, offset) =~= listing_from(root, children, 0).subrange(
        offset + 1,
        full_len(children),
    ));
}

} // verus!
