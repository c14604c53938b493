//! The storage boundary: what a backend must offer for a filesystem to be
//! built on it.
//!
//! The library itself performs no storage access.  Every operation resolves
//! and guards its path first and then delegates to a [`Backend`], which is
//! free to keep its entities wherever it likes — on a local disk, in
//! memory, or nowhere at all — as long as it reports each entity as a file
//! or a directory with a size in bytes.  Nothing is assumed about a
//! backend's answers: the library's contracts state what holds whatever a
//! backend returns.

use vstd::prelude::*;

use crate::fs::entity::Type;

verus! {

/// A storage backend, addressed by resolved paths (root and sub-path
/// already joined).
pub trait Backend: Sized {
    /// The handle an opened or created file is accessed through.
    type FileHandle;

    /// The backend's error type, passed through opaquely.
    type E;

    /// Looks up the type and size of the entity at `path`.
    fn stat(&self, path: &str) -> Result<(Type, u64), Self::E>;

    /// Opens the file at `path` for reading; fails if it does not exist.
    /// Returns the handle together with the entity's type and size.
    fn open_read(&mut self, path: &str) -> Result<(Self::FileHandle, Type, u64), Self::E>;

    /// Creates the file at `path`, truncating a pre-existing one.  Returns
    /// the handle together with the entity's type and size.
    fn create_file(&mut self, path: &str) -> Result<(Self::FileHandle, Type, u64), Self::E>;

    /// Creates the file at `path`; fails if an entity already exists there.
    fn create_file_new(&mut self, path: &str) -> Result<(Self::FileHandle, Type, u64), Self::E>;

    /// Creates the directory at `path`, missing intermediate segments
    /// included.  Succeeds if the directory already exists.
    fn create_dir_all(&mut self, path: &str) -> Result<(), Self::E>;

    /// Creates the directory at `path`, missing intermediate segments
    /// included; fails if an entity already exists at `path` itself.
    fn create_dir_new(&mut self, path: &str) -> Result<(), Self::E>;

    /// Removes the single file at `path`.
    fn remove_file(&self, path: &str) -> Result<(), Self::E>;

    /// Removes the directory at `path` and everything beneath it.
    fn remove_dir_all(&self, path: &str) -> Result<(), Self::E>;

    /// Lists the directory at `path`: for each entry its name resolved
    /// against `path`, its type and its size.  Each element may fail
    /// independently without aborting the listing as a whole.
    fn read_dir(&self, path: &str) -> Result<Vec<Result<(String, Type, u64), Self::E>>, Self::E>;
}

} // verus!
