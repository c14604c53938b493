//! The operation traits: opening, creating and removing files and
//! directories.
//!
//! Every operation takes a sub-path relative to the filesystem's root and
//! must run it through the path guard before touching storage: a sub-path
//! that [`crate::guard::path_accepted`] rejects fails with an error, and for
//! the operations that take the filesystem by mutable reference, leaves the
//! filesystem — storage backend included — untouched.  That short-circuit
//! is part of every trait contract below.

use vstd::prelude::*;

use crate::fs::entity;
use crate::guard::path_accepted;

verus! {

/// Opening an existing file for reading.  Requires the filesystem to be at
/// least readable.
pub trait OpenFile: Sized {
    type File: entity::File;

    type E;

    /// Opens the file at `path`; fails if it does not exist.
    fn open(&mut self, path: &str) -> (r: Result<Self::File, Self::E>)
        ensures
            !path_accepted(path@) ==> r is Err && *final(self) == *old(self),
    ;
}

/// Opening an existing directory.  Requires the filesystem to be at least
/// readable.
pub trait OpenDir: Sized {
    type Dir: entity::Dir;

    type E;

    /// Opens the directory at `path`; fails if it does not exist.
    fn open(&mut self, path: &str) -> (r: Result<Self::Dir, Self::E>)
        ensures
            !path_accepted(path@) ==> r is Err && *final(self) == *old(self),
    ;
}

/// Creating files.  Requires the filesystem to be at least writable or
/// appendable.
pub trait CreateFile: Sized {
    type File: entity::File;

    type E;

    /// Creates a new file at `path`, or opens the file that already exists
    /// there.
    fn create(&mut self, path: &str) -> (r: Result<Self::File, Self::E>)
        ensures
            !path_accepted(path@) ==> r is Err && *final(self) == *old(self),
    ;

    /// Creates a new file at `path`; fails if one already exists.  The
    /// check and the creation are not assumed to be one atomic step.
    fn create_new(&mut self, path: &str) -> (r: Result<Self::File, Self::E>)
        ensures
            !path_accepted(path@) ==> r is Err && *final(self) == *old(self),
    ;
}

/// Creating directories.  Requires the filesystem to be at least writable.
pub trait CreateDir: Sized {
    type Dir: entity::Dir;

    type E;

    /// Creates the directory at `path` — intermediate segments included —
    /// or opens the directory that already exists there.
    fn create(&mut self, path: &str) -> (r: Result<Self::Dir, Self::E>)
        ensures
            !path_accepted(path@) ==> r is Err && *final(self) == *old(self),
    ;

    /// Creates the directory at `path`, intermediate segments included.
    /// The check and the creation are not assumed to be one atomic step.
    fn create_new(&mut self, path: &str) -> (r: Result<Self::Dir, Self::E>)
        ensures
            !path_accepted(path@) ==> r is Err && *final(self) == *old(self),
    ;
}

/// Removing a single file.  Requires the filesystem to be removable.
pub trait RemoveFile {
    type E;

    fn remove(&self, path: &str) -> (r: Result<(), Self::E>)
        ensures
            !path_accepted(path@) ==> r is Err,
    ;
}

/// Removing a directory and everything beneath it.  Requires the
/// filesystem to be removable.
pub trait RemoveDir {
    type E;

    fn remove(&self, path: &str) -> (r: Result<(), Self::E>)
        ensures
            !path_accepted(path@) ==> r is Err,
    ;
}

} // verus!
