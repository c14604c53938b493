//! The sandboxed filesystem over a storage backend.
//!
//! [`FileSystem`] binds a root path, a set of capabilities and a
//! [`Backend`].  Every operation resolves its sub-path against the root with
//! [`FileSystem::current`] and runs the sub-path through the guard of
//! [`crate::guard`]; only an accepted sub-path reaches the backend.  A
//! rejected sub-path fails with the operation's access error, which carries
//! the resolved path, and the filesystem — backend included — is left
//! untouched.
//!
//! The entities handed out — [`File`], [`Dir`], [`DirEntry`] — carry a
//! snapshot of their type and size taken from the backend when they were
//! made, so each answers the file-or-directory queries deterministically and
//! in mutual exclusivity.  A [`Dir`] recomputes what it contains from a
//! fresh backend listing on every call.

use vstd::prelude::*;

use crate::backend::Backend;
use crate::fs::entity;
use crate::fs::entity::Metadata;
use crate::fs::entity::Type;
use crate::fs::ops;
use crate::fs::Introspect;
use crate::guard::check_path;
use crate::guard::path_accepted;

verus! {

/// The resolved form of a sub-path: the root and the sub-path joined by one
/// separator.
pub open spec fn join_spec(root: Seq<char>, sub: Seq<char>) -> Seq<char> {
    root + seq!['/'] + sub
}

/// An error of opening an entity.
#[derive(Debug)]
pub enum OpenEntityError<E> {
    /// The path guard rejected the sub-path; carries the resolved path.
    AccessError(String),
    /// The entity is not readable.
    ReadError,
    /// An error of the storage backend, passed through.
    IoError(E),
}

/// An error of creating an entity.
#[derive(Debug)]
pub enum CreateEntityError<E> {
    /// The path guard rejected the sub-path; carries the resolved path.
    AccessError(String),
    /// The entity is not writable.
    WriteError,
    /// An error of the storage backend, passed through.
    IoError(E),
}

/// An error of removing an entity.
#[derive(Debug)]
pub enum RemoveEntityError<E> {
    /// The path guard rejected the sub-path; carries the resolved path.
    AccessError(String),
    /// The entity is not removable.
    RemoveError,
    /// An error of the storage backend, passed through.
    IoError(E),
}

/// An open file: the backend's handle together with a snapshot of the
/// entity's resolved path, type and size taken when it was opened.
pub struct File<H> {
    handle: H,
    path: String,
    kind: Type,
    size: u64,
}

impl<H> File<H> {
    pub closed spec fn path_spec(&self) -> Seq<char> {
        self.path@
    }

    pub closed spec fn kind_spec(&self) -> Type {
        self.kind
    }

    /// The resolved path this file was opened at.
    pub fn path(&self) -> (r: &str)
        ensures
            r@ == self.path_spec(),
    {
        self.path.as_str()
    }

    /// The backend's handle, for reading or writing through the backend's
    /// own means.
    pub fn handle(&self) -> &H {
        &self.handle
    }

    /// Gives up the file, returning the backend's handle.
    pub fn into_handle(self) -> H {
        self.handle
    }
}

impl<H> entity::File for File<H> {
    closed spec fn is_file_spec(&self) -> bool {
        self.kind == Type::File
    }

    closed spec fn size_spec(&self) -> u64 {
        self.size
    }

    fn size(&self) -> u64 {
        self.size
    }

    fn is_file(&self) -> bool {
        self.kind == Type::File
    }

    fn is_dir(&self) -> bool {
        self.kind == Type::Dir
    }
}

/// One entry of a directory listing: a snapshot of the entry's resolved
/// path, type and size at the moment the listing was taken.
pub struct DirEntry {
    path: String,
    kind: Type,
    size: u64,
}

impl DirEntry {
    pub closed spec fn kind_spec(&self) -> Type {
        self.kind
    }

    pub closed spec fn size_of_spec(&self) -> u64 {
        self.size
    }
}

impl entity::File for DirEntry {
    open spec fn is_file_spec(&self) -> bool {
        self.kind_spec() == Type::File
    }

    closed spec fn size_spec(&self) -> u64 {
        self.size
    }

    fn size(&self) -> u64 {
        self.size
    }

    fn is_file(&self) -> bool {
        self.kind == Type::File
    }

    fn is_dir(&self) -> bool {
        self.kind == Type::Dir
    }
}

impl entity::DirEntry for DirEntry {
    closed spec fn path_spec(&self) -> Seq<char> {
        self.path@
    }

    fn path(&self) -> String {
        self.path.clone()
    }
}

/// An open directory: the resolved path it was opened at, a size snapshot
/// for the directory entity itself, and the backend its contents are listed
/// through.
pub struct Dir<B> {
    path: String,
    size: u64,
    backend: B,
}

impl<B> Dir<B> {
    pub closed spec fn path_spec(&self) -> Seq<char> {
        self.path@
    }

    /// The resolved path this directory was opened at.
    pub fn path(&self) -> (r: &str)
        ensures
            r@ == self.path_spec(),
    {
        self.path.as_str()
    }
}

impl<B> entity::File for Dir<B> {
    /// A directory handle describes its entity as a directory, never as a
    /// file.
    closed spec fn is_file_spec(&self) -> bool {
        false
    }

    closed spec fn size_spec(&self) -> u64 {
        self.size
    }

    fn size(&self) -> u64 {
        self.size
    }

    fn is_file(&self) -> bool {
        false
    }

    fn is_dir(&self) -> bool {
        true
    }
}

/// What [`listing_total`] computes from a backend listing: the sizes added
/// with saturation, unless some element failed, in which case the error
/// nearest the end of the listing.
pub open spec fn total_spec<E>(list: Seq<Result<(String, Type, u64), E>>) -> Result<u64, E>
    decreases list.len(),
{
    if list.len() == 0 {
        Ok(0u64)
    } else {
        match list.last() {
            Err(e) => Err(e),
            Ok(t) => match total_spec(list.drop_last()) {
                Err(e) => Err(e),
                Ok(acc) => Ok(acc.saturating_add(t.2)),
            },
        }
    }
}

/// Adds up the sizes of a backend listing, saturating at the largest
/// representable total; fails if any element of the listing failed.
pub fn listing_total<E>(list: Vec<Result<(String, Type, u64), E>>) -> (r: Result<u64, E>)
    ensures
        r == total_spec(list@),
{
    let ghost full = list@;
    let mut l = list;
    let mut acc: u64 = 0;
    let mut err: Option<E> = None;
    while l.len() > 0 && err.is_none()
        invariant
            err is None ==> total_spec(full) == match total_spec(l@) {
                Err(e) => Err::<u64, E>(e),
                Ok(rest) => Ok(rest.saturating_add(acc) as u64),
            },
            err matches Some(e) ==> total_spec(full) == Err::<u64, E>(e),
        decreases l@.len(),
    {
        let ghost prev = l@;
        let item = l.pop().unwrap();
        proof {
            assert(item == prev.last());
            assert(l@ == prev.drop_last());
        }
        match item {
            Err(e) => {
                err = Some(e);
            },
            Ok(t) => {
                let s: u64 = t.2;
                let ghost a0 = acc;
                acc = s.saturating_add(acc);
                proof {
                    if total_spec(l@) is Ok {
                        let rest = total_spec(l@)->Ok_0;
                        assert(rest.saturating_add(s).saturating_add(a0) == rest.saturating_add(
                            acc,
                        ));
                    }
                }
            },
        }
    }
    match err {
        Some(e) => Err(e),
        None => Ok(acc),
    }
}

/// How one element of [`entries_of_listing`]'s result reflects one element
/// of the backend listing it came from: a successful element becomes the
/// entry with that path, type and size, a failed one passes the backend
/// error through.
pub open spec fn entry_reflects<E>(
    src: Result<(String, Type, u64), E>,
    dst: Result<DirEntry, OpenEntityError<E>>,
) -> bool {
    match src {
        Ok(t) => dst matches Ok(d) && entity::DirEntry::path_spec(&d) == t.0@ && d.kind_spec() == t.1
            && d.size_of_spec() == t.2,
        Err(e) => dst == Err::<DirEntry, OpenEntityError<E>>(OpenEntityError::IoError(e)),
    }
}

/// Turns a backend listing into directory entries, element for element.
pub fn entries_of_listing<E>(list: Vec<Result<(String, Type, u64), E>>) -> (r: Vec<
    Result<DirEntry, OpenEntityError<E>>,
>)
    ensures
        r@.len() == list@.len(),
        forall|i: int| 0 <= i < list@.len() ==> entry_reflects(list@[i], r@[i]),
{
    let ghost full = list@;
    let mut l = list;
    let mut out: Vec<Result<DirEntry, OpenEntityError<E>>> = Vec::new();
    while l.len() > 0
        invariant
            out@.len() + l@.len() == full.len(),
            l@ == full.subrange(out@.len() as int, full.len() as int),
            forall|i: int| 0 <= i < out@.len() ==> entry_reflects(full[i], out@[i]),
        decreases l@.len(),
    {
        let item = l.remove(0);
        proof {
            assert(item == full[out@.len() as int]);
            assert(l@ =~= full.subrange(out@.len() as int + 1, full.len() as int));
        }
        match item {
            Ok(t) => {
                let (path, kind, size) = t;
                out.push(Ok(DirEntry { path, kind, size }));
            },
            Err(e) => {
                out.push(Err(OpenEntityError::IoError(e)));
            },
        }
    }
    proof {
        assert(out@.len() == full.len());
    }
    out
}

impl<B: Backend> entity::Dir for Dir<B> {
    type Entry = DirEntry;

    type IterE = OpenEntityError<B::E>;

    type EntriesE = B::E;

    /// Recomputed from a fresh backend listing; fails as a whole when the
    /// listing, or any element of it, fails.
    fn total_size(&self) -> (r: Result<u64, B::E>) {
        match self.backend.read_dir(self.path.as_str()) {
            Ok(list) => listing_total(list),
            Err(e) => Err(e),
        }
    }

    /// The number of elements — successes and failures alike — of a fresh
    /// backend listing.
    fn count(&self) -> (r: Result<usize, B::E>) {
        match self.backend.read_dir(self.path.as_str()) {
            Ok(list) => Ok(list.len()),
            Err(e) => Err(e),
        }
    }

    /// A fresh listing of the directory, one entry or per-element error for
    /// each element the backend reported.
    fn entries(&self) -> (r: Result<Vec<Result<DirEntry, OpenEntityError<B::E>>>, B::E>) {
        match self.backend.read_dir(self.path.as_str()) {
            Ok(list) => Ok(entries_of_listing(list)),
            Err(e) => Err(e),
        }
    }
}

/// A filesystem bound to a root path, a capability set and a storage
/// backend.  Sub-paths of every operation resolve against the root; the
/// root itself never changes after construction.
pub struct FileSystem<B> {
    root: String,
    backend: B,
    readable: bool,
    writable: bool,
    appendable: bool,
    truncatable: bool,
    removable: bool,
}

impl<B> FileSystem<B> {
    pub closed spec fn root_spec(&self) -> Seq<char> {
        self.root@
    }

    pub closed spec fn backend_spec(&self) -> B {
        self.backend
    }

    /// A filesystem with every capability enabled.
    pub fn new(root: String, backend: B) -> (r: Self)
        ensures
            r.root_spec() == root@,
            r.backend_spec() == backend,
            r.readable_spec(),
            r.writable_spec(),
            r.appendable_spec(),
            r.truncatable_spec(),
            r.removable_spec(),
    {
        Self {
            root,
            backend,
            readable: true,
            writable: true,
            appendable: true,
            truncatable: true,
            removable: true,
        }
    }

    /// A filesystem advertising exactly the requested capability subset.
    pub fn with_capabilities(
        root: String,
        backend: B,
        readable: bool,
        writable: bool,
        appendable: bool,
        truncatable: bool,
        removable: bool,
    ) -> (r: Self)
        ensures
            r.root_spec() == root@,
            r.backend_spec() == backend,
            r.readable_spec() == readable,
            r.writable_spec() == writable,
            r.appendable_spec() == appendable,
            r.truncatable_spec() == truncatable,
            r.removable_spec() == removable,
    {
        Self { root, backend, readable, writable, appendable, truncatable, removable }
    }

    /// A read-only view of the storage backend.
    pub fn backend(&self) -> (r: &B)
        ensures
            *r == self.backend_spec(),
    {
        &self.backend
    }

    /// A read-only view of the root path.
    pub fn root(&self) -> (r: &str)
        ensures
            r@ == self.root_spec(),
    {
        self.root.as_str()
    }

    /// Resolves a sub-path against the root: the two joined by one
    /// separator.
    pub fn current(&self, sub: &str) -> (r: String)
        ensures
            r@ == join_spec(self.root_spec(), sub@),
    {
        proof {
            reveal_strlit("/");
            assert("/"@ =~= seq!['/']);
        }
        let mut r = self.root.clone();
        r.append("/");
        r.append(sub);
        r
    }
}

impl<B> Introspect for FileSystem<B> {
    closed spec fn readable_spec(&self) -> bool {
        self.readable
    }

    closed spec fn writable_spec(&self) -> bool {
        self.writable
    }

    closed spec fn appendable_spec(&self) -> bool {
        self.appendable
    }

    closed spec fn truncatable_spec(&self) -> bool {
        self.truncatable
    }

    closed spec fn removable_spec(&self) -> bool {
        self.removable
    }

    fn is_readable(&self) -> bool {
        self.readable
    }

    fn is_writable(&self) -> bool {
        self.writable
    }

    fn is_appendable(&self) -> bool {
        self.appendable
    }

    fn is_truncatable(&self) -> bool {
        self.truncatable
    }

    fn is_removable(&self) -> bool {
        self.removable
    }
}

/// The metadata queries resolve their sub-path against the root like every
/// operation, but carry no access error of their own: only the opening,
/// creating and removing operations run the path guard.
impl<B: Backend> crate::fs::FileSystem for FileSystem<B> {
    type MetadataE = B::E;

    /// Resolves `sub` against the root and asks the backend for type and
    /// size; whatever the backend answered, a returned snapshot carries the
    /// resolved path.
    fn metadata(&self, sub: &str) -> (r: Result<Metadata, B::E>)
        ensures
            r matches Ok(m) ==> m.path_spec() == join_spec(self.root_spec(), sub@),
    {
        let cur = self.current(sub);
        match self.backend.stat(cur.as_str()) {
            Ok((kind, size)) => Ok(Metadata::new(cur, kind, size)),
            Err(e) => Err(e),
        }
    }

    fn exists_at(&self, path: &str) -> bool {
        let cur = self.current(path);
        self.backend.stat(cur.as_str()).is_ok()
    }

    fn is_file(&self, path: &str) -> bool {
        let cur = self.current(path);
        stat_reports(&self.backend.stat(cur.as_str()), Type::File)
    }

    fn is_dir(&self, path: &str) -> bool {
        let cur = self.current(path);
        stat_reports(&self.backend.stat(cur.as_str()), Type::Dir)
    }
}

/// Whether a backend stat answer reports an entity of the given type.  The
/// type queries of the filesystem are this decision on a fresh stat, so an
/// answer reporting a file makes `is_file` true and `is_dir` false, and the
/// other way round — the mutual exclusivity holds per answer.
pub fn stat_reports<E>(stat: &Result<(Type, u64), E>, kind: Type) -> (r: bool)
    ensures
        r == (stat matches Ok(t) && t.0 == kind),
{
    match stat {
        Ok((found, _)) => *found == kind,
        Err(_) => false,
    }
}

impl<B: Backend> ops::OpenFile for FileSystem<B> {
    type File = File<B::FileHandle>;

    type E = OpenEntityError<B::E>;

    /// Guards the sub-path, then opens through the backend.  An access
    /// error arises exactly when the guard rejects; every other failure
    /// passes the backend's error through.
    fn open(&mut self, path: &str) -> (r: Result<File<B::FileHandle>, OpenEntityError<B::E>>)
        ensures
            final(self).root_spec() == old(self).root_spec(),
            final(self).readable_spec() == old(self).readable_spec(),
            final(self).writable_spec() == old(self).writable_spec(),
            final(self).appendable_spec() == old(self).appendable_spec(),
            final(self).truncatable_spec() == old(self).truncatable_spec(),
            final(self).removable_spec() == old(self).removable_spec(),
            !path_accepted(path@) ==> (r matches Err(e) && e matches OpenEntityError::AccessError(p)
                && p@ == join_spec(old(self).root_spec(), path@)),
            path_accepted(path@) ==> !(r matches Err(OpenEntityError::AccessError(_))),
            r matches Err(e) ==> !(e matches OpenEntityError::ReadError),
            r matches Ok(f) ==> f.path_spec() == join_spec(old(self).root_spec(), path@),
    {
        let cur = self.current(path);
        if !check_path(path) {
            return Err(OpenEntityError::AccessError(cur));
        }
        match self.backend.open_read(cur.as_str()) {
            Ok((handle, kind, size)) => Ok(File { handle, path: cur, kind, size }),
            Err(e) => Err(OpenEntityError::IoError(e)),
        }
    }
}

impl<B: Backend + Clone> ops::OpenDir for FileSystem<B> {
    type Dir = Dir<B>;

    type E = OpenEntityError<B::E>;

    /// Guards the sub-path, then resolves the directory's size snapshot
    /// through the backend; fails with the backend's error when the
    /// directory cannot be resolved.
    fn open(&mut self, path: &str) -> (r: Result<Dir<B>, OpenEntityError<B::E>>)
        ensures
            *final(self) == *old(self),
            !path_accepted(path@) ==> (r matches Err(e) && e matches OpenEntityError::AccessError(p)
                && p@ == join_spec(old(self).root_spec(), path@)),
            path_accepted(path@) ==> !(r matches Err(OpenEntityError::AccessError(_))),
            r matches Err(e) ==> !(e matches OpenEntityError::ReadError),
            r matches Ok(d) ==> d.path_spec() == join_spec(old(self).root_spec(), path@),
    {
        let cur = self.current(path);
        if !check_path(path) {
            return Err(OpenEntityError::AccessError(cur));
        }
        match self.backend.stat(cur.as_str()) {
            Ok((_, size)) => Ok(Dir { path: cur, size, backend: self.backend.clone() }),
            Err(e) => Err(OpenEntityError::IoError(e)),
        }
    }
}

impl<B: Backend> ops::CreateFile for FileSystem<B> {
    type File = File<B::FileHandle>;

    type E = CreateEntityError<B::E>;

    /// Guards the sub-path, then creates — or truncates and opens — the
    /// file through the backend.
    fn create(&mut self, path: &str) -> (r: Result<File<B::FileHandle>, CreateEntityError<B::E>>)
        ensures
            final(self).root_spec() == old(self).root_spec(),
            final(self).readable_spec() == old(self).readable_spec(),
            final(self).writable_spec() == old(self).writable_spec(),
            final(self).appendable_spec() == old(self).appendable_spec(),
            final(self).truncatable_spec() == old(self).truncatable_spec(),
            final(self).removable_spec() == old(self).removable_spec(),
            !path_accepted(path@) ==> (r matches Err(e) && e matches CreateEntityError::AccessError(
                p,
            ) && p@ == join_spec(old(self).root_spec(), path@)),
            path_accepted(path@) ==> !(r matches Err(CreateEntityError::AccessError(_))),
            r matches Err(e) ==> !(e matches CreateEntityError::WriteError),
            r matches Ok(f) ==> f.path_spec() == join_spec(old(self).root_spec(), path@),
    {
        let cur = self.current(path);
        if !check_path(path) {
            return Err(CreateEntityError::AccessError(cur));
        }
        match self.backend.create_file(cur.as_str()) {
            Ok((handle, kind, size)) => Ok(File { handle, path: cur, kind, size }),
            Err(e) => Err(CreateEntityError::IoError(e)),
        }
    }

    /// Guards the sub-path, then creates the file through the backend,
    /// failing if an entity already exists there.
    fn create_new(&mut self, path: &str) -> (r: Result<
        File<B::FileHandle>,
        CreateEntityError<B::E>,
    >)
        ensures
            final(self).root_spec() == old(self).root_spec(),
            final(self).readable_spec() == old(self).readable_spec(),
            final(self).writable_spec() == old(self).writable_spec(),
            final(self).appendable_spec() == old(self).appendable_spec(),
            final(self).truncatable_spec() == old(self).truncatable_spec(),
            final(self).removable_spec() == old(self).removable_spec(),
            !path_accepted(path@) ==> (r matches Err(e) && e matches CreateEntityError::AccessError(
                p,
            ) && p@ == join_spec(old(self).root_spec(), path@)),
            path_accepted(path@) ==> !(r matches Err(CreateEntityError::AccessError(_))),
            r matches Err(e) ==> !(e matches CreateEntityError::WriteError),
            r matches Ok(f) ==> f.path_spec() == join_spec(old(self).root_spec(), path@),
    {
        let cur = self.current(path);
        if !check_path(path) {
            return Err(CreateEntityError::AccessError(cur));
        }
        match self.backend.create_file_new(cur.as_str()) {
            Ok((handle, kind, size)) => Ok(File { handle, path: cur, kind, size }),
            Err(e) => Err(CreateEntityError::IoError(e)),
        }
    }
}

impl<B: Backend + Clone> FileSystem<B> {
    /// Creates the directory tree at the already resolved `cur` through the
    /// backend and resolves its size snapshot.
    fn create_new_dir_impl(&mut self, cur: String) -> (r: Result<Dir<B>, CreateEntityError<B::E>>)
        ensures
            final(self).root_spec() == old(self).root_spec(),
            final(self).readable_spec() == old(self).readable_spec(),
            final(self).writable_spec() == old(self).writable_spec(),
            final(self).appendable_spec() == old(self).appendable_spec(),
            final(self).truncatable_spec() == old(self).truncatable_spec(),
            final(self).removable_spec() == old(self).removable_spec(),
            r matches Ok(d) ==> d.path_spec() == cur@,
            r matches Err(e) ==> e matches CreateEntityError::IoError(_),
    {
        match self.backend.create_dir_all(cur.as_str()) {
            Ok(_) => match self.backend.stat(cur.as_str()) {
                Ok((_, size)) => Ok(Dir { path: cur, size, backend: self.backend.clone() }),
                Err(e) => Err(CreateEntityError::IoError(e)),
            },
            Err(e) => Err(CreateEntityError::IoError(e)),
        }
    }
}

impl<B: Backend + Clone> ops::CreateDir for FileSystem<B> {
    type Dir = Dir<B>;

    type E = CreateEntityError<B::E>;

    /// Guards the sub-path; opens the directory if an entity already
    /// exists, otherwise creates the whole tree through the backend.
    fn create(&mut self, path: &str) -> (r: Result<Dir<B>, CreateEntityError<B::E>>)
        ensures
            final(self).root_spec() == old(self).root_spec(),
            final(self).readable_spec() == old(self).readable_spec(),
            final(self).writable_spec() == old(self).writable_spec(),
            final(self).appendable_spec() == old(self).appendable_spec(),
            final(self).truncatable_spec() == old(self).truncatable_spec(),
            final(self).removable_spec() == old(self).removable_spec(),
            !path_accepted(path@) ==> (r matches Err(e) && e matches CreateEntityError::AccessError(
                p,
            ) && p@ == join_spec(old(self).root_spec(), path@)),
            path_accepted(path@) ==> !(r matches Err(CreateEntityError::AccessError(_))),
            r matches Err(e) ==> !(e matches CreateEntityError::WriteError),
            r matches Ok(d) ==> d.path_spec() == join_spec(old(self).root_spec(), path@),
    {
        let cur = self.current(path);
        if !check_path(path) {
            return Err(CreateEntityError::AccessError(cur));
        }
        let existing: Option<u64> = match self.backend.stat(cur.as_str()) {
            Ok((_, size)) => Some(size),
            Err(_) => None,
        };
        match existing {
            Some(size) => Ok(Dir { path: cur, size, backend: self.backend.clone() }),
            None => self.create_new_dir_impl(cur),
        }
    }

    /// Guards the sub-path, then creates the directory tree through the
    /// backend, failing if an entity already exists at the sub-path itself.
    fn create_new(&mut self, path: &str) -> (r: Result<Dir<B>, CreateEntityError<B::E>>)
        ensures
            final(self).root_spec() == old(self).root_spec(),
            final(self).readable_spec() == old(self).readable_spec(),
            final(self).writable_spec() == old(self).writable_spec(),
            final(self).appendable_spec() == old(self).appendable_spec(),
            final(self).truncatable_spec() == old(self).truncatable_spec(),
            final(self).removable_spec() == old(self).removable_spec(),
            !path_accepted(path@) ==> (r matches Err(e) && e matches CreateEntityError::AccessError(
                p,
            ) && p@ == join_spec(old(self).root_spec(), path@)),
            path_accepted(path@) ==> !(r matches Err(CreateEntityError::AccessError(_))),
            r matches Err(e) ==> !(e matches CreateEntityError::WriteError),
            r matches Ok(d) ==> d.path_spec() == join_spec(old(self).root_spec(), path@),
    {
        let cur = self.current(path);
        if !check_path(path) {
            return Err(CreateEntityError::AccessError(cur));
        }
        match self.backend.create_dir_new(cur.as_str()) {
            Ok(_) => match self.backend.stat(cur.as_str()) {
                Ok((_, size)) => Ok(Dir { path: cur, size, backend: self.backend.clone() }),
                Err(e) => Err(CreateEntityError::IoError(e)),
            },
            Err(e) => Err(CreateEntityError::IoError(e)),
        }
    }
}

impl<B: Backend> ops::RemoveFile for FileSystem<B> {
    type E = RemoveEntityError<B::E>;

    /// Guards the sub-path, then removes the single file through the
    /// backend.
    fn remove(&self, path: &str) -> (r: Result<(), RemoveEntityError<B::E>>)
        ensures
            !path_accepted(path@) ==> (r matches Err(e) && e matches
                RemoveEntityError::AccessError(p) && p@ == join_spec(self.root_spec(), path@)),
            path_accepted(path@) ==> !(r matches Err(RemoveEntityError::AccessError(_))),
            r matches Err(e) ==> !(e matches RemoveEntityError::RemoveError),
    {
        let cur = self.current(path);
        if !check_path(path) {
            return Err(RemoveEntityError::AccessError(cur));
        }
        match self.backend.remove_file(cur.as_str()) {
            Ok(_) => Ok(()),
            Err(e) => Err(RemoveEntityError::IoError(e)),
        }
    }
}

impl<B: Backend> ops::RemoveDir for FileSystem<B> {
    type E = RemoveEntityError<B::E>;

    /// Guards the sub-path, then removes the directory and everything
    /// beneath it through the backend.
    fn remove(&self, path: &str) -> (r: Result<(), RemoveEntityError<B::E>>)
        ensures
            !path_accepted(path@) ==> (r matches Err(e) && e matches
                RemoveEntityError::AccessError(p) && p@ == join_spec(self.root_spec(), path@)),
            path_accepted(path@) ==> !(r matches Err(RemoveEntityError::AccessError(_))),
            r matches Err(e) ==> !(e matches RemoveEntityError::RemoveError),
    {
        let cur = self.current(path);
        if !check_path(path) {
            return Err(RemoveEntityError::AccessError(cur));
        }
        match self.backend.remove_dir_all(cur.as_str()) {
            Ok(_) => Ok(()),
            Err(e) => Err(RemoveEntityError::IoError(e)),
        }
    }
}

} // verus!

