//! The entity model: traits for files, directories and directory entries,
//! and the concrete [`Type`] and [`Metadata`] values they are described by.
//!
//! A directory is not a file here: every entity answers the type queries as
//! exactly one of file or directory, never both and never neither.  The
//! trait contracts below make that mutual exclusivity binding on every
//! implementation.

use vstd::prelude::*;

verus! {

/// The type of an entity: a file or a directory.
#[derive(Clone, Copy, PartialEq, Eq, Structural, Debug, Hash)]
pub enum Type {
    File,
    Dir,
}

/// An entity of the filesystem.
///
/// Every implementation fixes a type for each value through
/// [`File::is_file_spec`], and the two queries answer it in mutual
/// exclusivity: `is_file` and `is_dir` never agree.
pub trait File {
    /// Whether this entity is a file, as a function of the value alone.
    spec fn is_file_spec(&self) -> bool;

    /// The size this entity reports, as a function of the value alone.
    spec fn size_spec(&self) -> u64;

    /// The space the entity itself occupies, in bytes.  Its meaning is
    /// backend-defined and may be meaningless for pseudo-filesystems.
    fn size(&self) -> (r: u64)
        ensures
            r == self.size_spec(),
    ;

    fn is_file(&self) -> (r: bool)
        ensures
            r == self.is_file_spec(),
    ;

    fn is_dir(&self) -> (r: bool)
        ensures
            r == !self.is_file_spec(),
    ;
}

/// One entry found while listing a directory.
pub trait DirEntry: File {
    /// The entry's path, as a function of the value alone.
    spec fn path_spec(&self) -> Seq<char>;

    /// The path of the entry: the path of the directory whose listing
    /// produced it, extended by the entry's name.
    fn path(&self) -> (r: String)
        ensures
            r@ == self.path_spec(),
    ;
}

/// A directory.  Its own size queries describe the directory entity itself;
/// the methods here describe what it contains, recomputed from a live
/// listing on every call.  A query that the storage backend cannot complete
/// fails as a whole rather than answering partially.
pub trait Dir: File {
    type Entry: DirEntry;

    type IterE;

    type EntriesE;

    /// The total size in bytes of the entities inside this directory,
    /// excluding the directory itself, added with saturation.
    fn total_size(&self) -> Result<u64, Self::EntriesE>;

    /// The number of entries inside this directory, excluding itself.
    fn count(&self) -> Result<usize, Self::EntriesE>;

    /// A fresh listing of the directory's entries.  Each element may fail
    /// independently — an entry can vanish between listing and inspection —
    /// without aborting the rest of the listing.
    fn entries(&self) -> Result<Vec<Result<Self::Entry, Self::IterE>>, Self::EntriesE>;
}

/// An immutable snapshot describing one entity at the moment of a metadata
/// query: its resolved path, its type, and its size in bytes.
pub struct Metadata {
    path: String,
    kind: Type,
    size: u64,
}

impl Metadata {
    pub closed spec fn path_spec(&self) -> Seq<char> {
        self.path@
    }

    pub closed spec fn kind_spec(&self) -> Type {
        self.kind
    }

    pub closed spec fn size_spec(&self) -> u64 {
        self.size
    }

    pub fn new(path: String, kind: Type, size: u64) -> (r: Self)
        ensures
            r.path_spec() == path@,
            r.kind_spec() == kind,
            r.size_spec() == size,
    {
        Self { path, kind, size }
    }

    pub fn path(&self) -> (r: &str)
        ensures
            r@ == self.path_spec(),
    {
        self.path.as_str()
    }

    /// The entity type recorded in this snapshot.
    pub fn kind(&self) -> (r: &Type)
        ensures
            *r == self.kind_spec(),
    {
        &self.kind
    }

    pub fn size(&self) -> (r: u64)
        ensures
            r == self.size_spec(),
    {
        self.size
    }
}

} // verus!
