//! A sandboxed filesystem abstraction.
//!
//! A filesystem value is bound to a base directory, its *root*, and every
//! operation against it takes a sub-path that is interpreted relative to that
//! root.  Before any storage access, the sub-path runs through a purely
//! syntactic containment check (the path guard in [`guard`]): a sub-path that
//! would climb above the root is rejected with an access error, and the
//! storage backend is never consulted for it.
//!
//! Filesystem entities are files and directories, and every entity reports
//! itself as exactly one of the two.  A filesystem also advertises five
//! capabilities — readable, writable, appendable, truncatable, removable —
//! fixed when the filesystem is made.
//!
//! Actual storage is behind the [`backend::Backend`] trait; the library
//! confines itself to the containment check, the entity model, and the
//! operation contracts, all of which are verified.

pub mod backend;
pub mod fs;
pub mod guard;
pub mod permission;
pub mod provider;
pub mod sandbox;
