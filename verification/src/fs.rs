//! The four requests of the mount: attribute query, name resolution,
//! directory listing and read.
//!
//! A request is answered in two steps. The `*_path` function says which host
//! object the request is about, or fails at once. The caller consults the host
//! and hands the outcome to the function named after the request, which
//! returns the reply and, for a name resolution, records the handle.

use crate::attr::{file_attr, file_attr_spec, FileAttr, FileKind, HostMetadata};
use crate::content::{lemma_window_len, read_window, window};
use crate::listing::{
    lemma_listing_starts_with_dots, list_root, listable, listed, listing_from, DirEntry, HostEntry,
    Listed,
};
use crate::registry::HandleRegistry;
use vstd::prelude::*;

verus! {

/// The handle of the mount root.
pub const ROOT_INO: u64 = 1;

/// The two ways in which a request fails.
#[derive(Clone, Copy, Debug, PartialEq, Eq, Structural)]
pub enum FsError {
    /// The handle or the name is not known, or the path does not exist.
    NotFound,
    /// The host failed for any other reason.
    IOError,
}

/// A host object, relative to the source directory.
#[derive(Clone, Debug, PartialEq, Eq)]
pub enum Target {
    /// The source directory itself.
    Root,
    /// The entry of the source directory with this name.
    Child(Vec<u8>),
}

/// A `Target` as a value.
pub ghost enum Place {
    Root,
    Child(Seq<u8>),
}

impl View for Target {
    type V = Place;

    open spec fn view(&self) -> Place {
        match *self {
            Target::Root => Place::Root,
            Target::Child(name) => Place::Child(name@),
        }
    }
}

/// The outcome of a `*_path` function as a value.
pub open spec fn place_of(r: Result<Target, FsError>) -> Result<Place, FsError> {
    match r {
        Ok(target) => Ok(target@),
        Err(e) => Err(e),
    }
}

/// An outcome that carries bytes, as a value.
pub open spec fn bytes_of(r: Result<Vec<u8>, FsError>) -> Result<Seq<u8>, FsError> {
    match r {
        Ok(data) => Ok(data@),
        Err(e) => Err(e),
    }
}

/// An outcome that carries a listing, as a value.
pub open spec fn listing_of(r: Result<Vec<DirEntry>, FsError>) -> Result<Seq<Listed>, FsError> {
    match r {
        Ok(entries) => Ok(listed(entries@)),
        Err(e) => Err(e),
    }
}

/// The attribute record for a path, given what the host said of it: the
/// record derived from its metadata, or the host's failure.
pub open spec fn stat_spec(host: Result<HostMetadata, FsError>) -> Result<FileAttr, FsError> {
    match host {
        Ok(meta) => Ok(file_attr_spec(meta)),
        Err(e) => Err(e),
    }
}

/// The host object of an attribute query: the root for the root's handle,
/// nothing for any other.
pub open spec fn root_only(ino: u64) -> Result<Place, FsError> {
    if ino == ROOT_INO {
        Ok(Place::Root)
    } else {
        Err(FsError::NotFound)
    }
}

/// The reply to an attribute query, given what the host said of the root.
pub open spec fn getattr_spec(ino: u64, root: Result<HostMetadata, FsError>) -> Result<
    FileAttr,
    FsError,
> {
    if ino == ROOT_INO {
        stat_spec(root)
    } else {
        Err(FsError::NotFound)
    }
}

/// The reply to a name resolution, given what the host said of the child:
/// its attribute record, or `NotFound` whatever the host's failure was.
pub open spec fn lookup_spec(child: Result<HostMetadata, FsError>) -> Result<FileAttr, FsError> {
    match child {
        Ok(meta) => Ok(file_attr_spec(meta)),
        Err(_) => Err(FsError::NotFound),
    }
}

/// The registry after a name resolution: the child's handle now maps to the
/// name if the host found the child, and nothing has changed if it did not.
pub open spec fn lookup_registry(
    registry: Map<u64, Seq<u8>>,
    name: Seq<u8>,
    child: Result<HostMetadata, FsError>,
) -> Map<u64, Seq<u8>> {
    match child {
        Ok(meta) => registry.insert(meta.st_ino, name),
        Err(_) => registry,
    }
}

/// The reply to a listing request, given the host's enumeration.
pub open spec fn readdir_spec(ino: u64, offset: i64, children: Seq<HostEntry>) -> Result<
    Seq<Listed>,
    FsError,
> {
    if ino == ROOT_INO {
        Ok(listing_from(ROOT_INO, children, offset))
    } else {
        Err(FsError::NotFound)
    }
}

/// The host object of a read: the file that the handle was resolved from.
pub open spec fn read_path_spec(registry: Map<u64, Seq<u8>>, ino: u64) -> Result<Place, FsError> {
    if registry.contains_key(ino) {
        Ok(Place::Child(registry[ino]))
    } else {
        Err(FsError::NotFound)
    }
}

/// The reply to a read, given the contents of the file or the host's failure.
/// An unknown handle is `NotFound`. A negative offset cannot be sought, and a
/// file that cannot be read is the host's failure: both are `IOError`.
pub open spec fn read_spec(
    registry: Map<u64, Seq<u8>>,
    ino: u64,
    offset: i64,
    size: u32,
    contents: Result<Seq<u8>, FsError>,
) -> Result<Seq<u8>, FsError> {
    if !registry.contains_key(ino) {
        Err(FsError::NotFound)
    } else if offset < 0 {
        Err(FsError::IOError)
    } else {
        match contents {
            Ok(bytes) => Ok(window(bytes, offset as int, size as int)),
            Err(_) => Err(FsError::IOError),
        }
    }
}

fn copy_name(name: &Vec<u8>) -> (copy: Vec<u8>)
    ensures
        copy@ == name@,
{
    let mut copy: Vec<u8> = Vec::new();
    let mut i: usize = 0;
    while i < name.len()
        invariant
            i <= name.len(),
            copy@ == name@.subrange(0, i as int),
        decreases name.len() - i,
    {
        copy.push(name[i]);
        i = i + 1;
        assert(copy@ =~= name@.subrange(0, i as int));
    }
    assert(copy@ =~= name@);
    copy
}

/// The passthrough filesystem: the path of the source directory, fixed when
/// the filesystem is made, and the registry of the handles it has given out.
pub struct PassthruFS {
    sourceroot: Vec<u8>,
    inodes: HandleRegistry,
}

impl PassthruFS {
    /// The handles that have been resolved, each with its name.
    pub closed spec fn registry(&self) -> Map<u64, Seq<u8>> {
        self.inodes@
    }

    /// The path of the source directory.
    pub closed spec fn root(&self) -> Seq<u8> {
        self.sourceroot@
    }

    /// A filesystem over the source directory `sourceroot` that has resolved
    /// no name yet.
    pub fn new(sourceroot: Vec<u8>) -> (fs: PassthruFS)
        ensures
            fs.root() == sourceroot@,
            fs.registry() == Map::<u64, Seq<u8>>::empty(),
    {
        PassthruFS { sourceroot, inodes: HandleRegistry::new() }
    }

    /// The path of the source directory.
    pub fn sourceroot(&self) -> (path: &Vec<u8>)
        ensures
            path@ == self.root(),
    {
        &self.sourceroot
    }

    /// The attribute record for a path of which the host said `host`.
    pub fn stat(host: Result<HostMetadata, FsError>) -> (r: Result<FileAttr, FsError>)
        ensures
            r == stat_spec(host),
    {
        match host {
            Ok(meta) => Ok(file_attr(&meta)),
            Err(e) => Err(e),
        }
    }

    /// Which host object an attribute query for `ino` is about.
    pub fn getattr_path(&self, ino: u64) -> (r: Result<Target, FsError>)
        ensures
            place_of(r) == root_only(ino),
    {
        if ino == ROOT_INO {
            Ok(Target::Root)
        } else {
            Err(FsError::NotFound)
        }
    }

    /// Answers an attribute query for `ino`, given what the host said of the
    /// root.
    pub fn getattr(&self, ino: u64, root: Result<HostMetadata, FsError>) -> (r: Result<
        FileAttr,
        FsError,
    >)
        ensures
            r == getattr_spec(ino, root),
    {
        if ino == ROOT_INO {
            Self::stat(root)
        } else {
            Err(FsError::NotFound)
        }
    }

    /// Which host object a resolution of `name` is about: the entry of that
    /// name in the source directory, whatever the parent.
    pub fn lookup_path(&self, _parent: u64, name: &Vec<u8>) -> (target: Target)
        ensures
            target@ == Place::Child(name@),
    {
        Target::Child(copy_name(name))
    }

    /// Answers a resolution of `name`, given what the host said of the child.
    /// A child that the host found is recorded under its handle before its
    /// attribute record is returned.
    pub fn lookup(
        &mut self,
        _parent: u64,
        name: &Vec<u8>,
        child: Result<HostMetadata, FsError>,
    ) -> (r: Result<FileAttr, FsError>)
        ensures
            r == lookup_spec(child),
            final(self).registry() == lookup_registry(old(self).registry(), name@, child),
            final(self).root() == old(self).root(),
    {
        match child {
            Ok(meta) => {
                let attr = file_attr(&meta);
                self.inodes.record(attr.ino, copy_name(name));
                Ok(attr)
            },
            Err(_) => Err(FsError::NotFound),
        }
    }

    /// Which host object a listing of `ino` is about.
    pub fn readdir_path(&self, ino: u64) -> (r: Result<Target, FsError>)
        ensures
            place_of(r) == root_only(ino),
    {
        if ino == ROOT_INO {
            Ok(Target::Root)
        } else {
            Err(FsError::NotFound)
        }
    }

    /// Answers a listing of `ino` from the cursor `offset`, given the host's
    /// enumeration of the source directory.
    pub fn readdir(&self, ino: u64, offset: i64, children: &Vec<HostEntry>) -> (r: Result<
        Vec<DirEntry>,
        FsError,
    >)
        requires
            listable(children@.len()),
        ensures
            listing_of(r) == readdir_spec(ino, offset, children@),
    {
        if ino != ROOT_INO {
            return Err(FsError::NotFound);
        }
        Ok(list_root(ROOT_INO, offset, children))
    }

    /// Which host object a read of `ino` is about.
    pub fn read_path(&self, ino: u64) -> (r: Result<Target, FsError>)
        ensures
            place_of(r) == read_path_spec(self.registry(), ino),
    {
        match self.inodes.resolve(ino) {
            Some(name) => Ok(Target::Child(copy_name(name))),
            None => Err(FsError::NotFound),
        }
    }

    /// Answers a read of `size` bytes at `offset` from `ino`, given the
    /// contents of the file or the host's failure to supply them.
    pub fn read(
        &self,
        ino: u64,
        offset: i64,
        size: u32,
        contents: Result<Vec<u8>, FsError>,
    ) -> (r: Result<Vec<u8>, FsError>)
        ensures
            bytes_of(r) == read_spec(self.registry(), ino, offset, size, bytes_of(contents)),
    {
        if self.inodes.resolve(ino).is_none() {
            return Err(FsError::NotFound);
        }
        if offset < 0 {
            return Err(FsError::IOError);
        }
        match contents {
            Ok(bytes) => Ok(read_window(&bytes, offset as u64, size)),
            Err(_) => Err(FsError::IOError),
        }
    }
}

/// One name resolution as a value: the name that was asked for and what the
/// host said of the child.
pub ghost struct Resolution {
    pub name: Seq<u8>,
    pub child: Result<HostMetadata, FsError>,
}

/// Whether the resolution returned the handle `ino` to its caller.
pub open spec fn returned(resolution: Resolution, ino: u64) -> bool {
    match resolution.child {
        Ok(meta) => meta.st_ino == ino,
        Err(_) => false,
    }
}

/// The registry of a filesystem that started empty and has answered the given
/// resolutions, in order.
pub open spec fn registry_after(resolutions: Seq<Resolution>) -> Map<u64, Seq<u8>>
    decreases resolutions.len(),
{
    if resolutions.len() == 0 {
        Map::empty()
    } else {
        lookup_registry(
            registry_after(resolutions.drop_last()),
            resolutions.last().name,
            resolutions.last().child,
        )
    }
}

/// A child that the host finds resolves to the attribute record that a direct
/// query of the host gives; after that its handle leads back to its name, and
/// a read through the handle returns what the file holds at the offset.
pub proof fn lemma_resolved_child_is_readable(
    registry: Map<u64, Seq<u8>>,
    name: Seq<u8>,
    meta: HostMetadata,
    offset: i64,
    size: u32,
    contents: Seq<u8>,
)
    requires
        0 <= offset,
    ensures
        lookup_spec(Ok(meta)) == stat_spec(Ok(meta)),
        lookup_spec(Ok(meta)) == Ok::<FileAttr, FsError>(file_attr_spec(meta)),
        file_attr_spec(meta).ino == meta.st_ino,
        read_path_spec(lookup_registry(registry, name, Ok(meta)), meta.st_ino) == Ok::<
            Place,
            FsError,
        >(Place::Child(name)),
        read_spec(lookup_registry(registry, name, Ok(meta)), meta.st_ino, offset, size, Ok(contents))
            == Ok::<Seq<u8>, FsError>(window(contents, offset as int, size as int)),
{
}

/// A child that the host does not find resolves to `NotFound`, and the
/// registry stays as it was.
pub proof fn lemma_failed_lookup_records_nothing(
    registry: Map<u64, Seq<u8>>,
    name: Seq<u8>,
    failure: FsError,
)
    ensures
        lookup_spec(Err(failure)) == Err::<FileAttr, FsError>(FsError::NotFound),
        lookup_registry(registry, name, Err(failure)) == registry,
{
}

/// A handle is in the registry only if some resolution returned it.
pub proof fn lemma_registry_holds_only_returned(resolutions: Seq<Resolution>, ino: u64)
    requires
        forall|i: int| 0 <= i < resolutions.len() ==> !returned(#[trigger] resolutions[i], ino),
    ensures
        !registry_after(resolutions).contains_key(ino),
    decreases resolutions.len(),
{
    if resolutions.len() > 0 {
        let earlier = resolutions.drop_last();
        assert forall|i: int| 0 <= i < earlier.len() implies !returned(
            #[trigger] earlier[i],
            ino,
        ) by {
            assert(earlier[i] == resolutions[i]);
        }
        lemma_registry_holds_only_returned(earlier, ino);
        assert(!returned(resolutions[resolutions.len() - 1], ino));
    }
}

/// A read through a handle that no resolution has returned is `NotFound`,
/// whatever the offset, the length and the host's answer.
pub proof fn lemma_unresolved_handle_is_not_found(
    resolutions: Seq<Resolution>,
    ino: u64,
    offset: i64,
    size: u32,
    contents: Result<Seq<u8>, FsError>,
)
    requires
        forall|i: int| 0 <= i < resolutions.len() ==> !returned(#[trigger] resolutions[i], ino),
    ensures
        read_path_spec(registry_after(resolutions), ino) == Err::<Place, FsError>(
            FsError::NotFound,
        ),
        read_spec(registry_after(resolutions), ino, offset, size, contents) == Err::<
            Seq<u8>,
            FsError,
        >(FsError::NotFound),
{
    lemma_registry_holds_only_returned(resolutions, ino);
}

/// A read through a resolved handle, at an offset that can be sought, from a
/// file that the host could read succeeds. It returns `size` bytes, or as many
/// as the file has from `offset` on if that is fewer, and each byte is the
/// file's own at that place.
pub proof fn lemma_read_returns_file_bytes(
    registry: Map<u64, Seq<u8>>,
    ino: u64,
    offset: i64,
    size: u32,
    contents: Seq<u8>,
)
    requires
        registry.contains_key(ino),
        0 <= offset,
    ensures
        read_spec(registry, ino, offset, size, Ok(contents)) == Ok::<Seq<u8>, FsError>(
            window(contents, offset as int, size as int),
        ),
        window(contents, offset as int, size as int).len() == vstd::math::min(
            size as int,
            vstd::math::max(0, contents.len() - offset),
        ),
        forall|i: int|
            0 <= i < window(contents, offset as int, size as int).len() ==> #[trigger] window(
                contents,
                offset as int,
                size as int,
            )[i] == contents[offset + i],
{
    lemma_window_len(contents, offset as int, size as int);
}

/// A listing of the root from the beginning succeeds and yields `.` and then
/// `..` first, both with the root's handle.
pub proof fn lemma_readdir_starts_with_dots(children: Seq<HostEntry>)
    ensures
        readdir_spec(ROOT_INO, 0, children) == Ok::<Seq<Listed>, FsError>(
            listing_from(ROOT_INO, children, 0),
        ),
        listing_from(ROOT_INO, children, 0).len() >= 2,
        listing_from(ROOT_INO, children, 0)[0].ino == ROOT_INO,
        listing_from(ROOT_INO, children, 0)[0].name == "."@,
        listing_from(ROOT_INO, children, 0)[0].kind == FileKind::Directory,
        listing_from(ROOT_INO, children, 0)[1].ino == ROOT_INO,
        listing_from(ROOT_INO, children, 0)[1].name == ".."@,
        listing_from(ROOT_INO, children, 0)[1].kind == FileKind::Directory,
{
    lemma_listing_starts_with_dots(ROOT_INO, children);
}

} // verus!
