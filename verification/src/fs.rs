//! The filesystem interface: capability introspection and the metadata
//! queries every filesystem answers.
//!
//! A filesystem may hold any subset of five capabilities — readable,
//! writable, appendable, truncatable, removable — fixed when the value is
//! made.  The queries of [`Introspect`] only advertise them: the operation
//! traits in [`ops`] are not gated structurally, and a filesystem lacking a
//! capability is expected to fail the corresponding calls at run time.

pub mod entity;
pub mod ops;

use vstd::prelude::*;

verus! {

/// The capability queries of a filesystem.  Each answer is a function of
/// the filesystem value alone, so capabilities cannot drift over a
/// filesystem's lifetime.
pub trait Introspect {
    spec fn readable_spec(&self) -> bool;

    spec fn writable_spec(&self) -> bool;

    spec fn appendable_spec(&self) -> bool;

    spec fn truncatable_spec(&self) -> bool;

    spec fn removable_spec(&self) -> bool;

    fn is_readable(&self) -> (r: bool)
        ensures
            r == self.readable_spec(),
    ;

    fn is_writable(&self) -> (r: bool)
        ensures
            r == self.writable_spec(),
    ;

    fn is_appendable(&self) -> (r: bool)
        ensures
            r == self.appendable_spec(),
    ;

    fn is_truncatable(&self) -> (r: bool)
        ensures
            r == self.truncatable_spec(),
    ;

    fn is_removable(&self) -> (r: bool)
        ensures
            r == self.removable_spec(),
    ;
}

/// The metadata queries of a filesystem.  Every sub-path argument is
/// interpreted relative to the filesystem's root.
pub trait FileSystem: Introspect {
    type MetadataE;

    /// Describes the entity at `sub` with a [`entity::Metadata`] snapshot,
    /// or fails with `Self::MetadataE` when the backend cannot resolve it.
    fn metadata(&self, sub: &str) -> Result<entity::Metadata, Self::MetadataE>;

    /// Whether an entity exists at `path`.
    fn exists_at(&self, path: &str) -> bool;

    /// Whether the entity at `path` is a file.  A filesystem that only ever
    /// stores directories answers `false` as an invariant, not merely as a
    /// common case.
    fn is_file(&self, path: &str) -> bool;

    /// Whether the entity at `path` is a directory.  A filesystem that only
    /// ever stores files answers `false` as an invariant.
    fn is_dir(&self, path: &str) -> bool;
}

} // verus!
