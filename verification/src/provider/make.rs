//! The traits a provider implements to make filesystems.
//!
//! A filesystem can be made with the default capability set — all five —
//! through [`Make`], or with a single basic capability through the
//! remaining traits.  The `root` argument of every making method is the
//! base path of the new filesystem; see [`crate::fs`] for what the root
//! means.

use vstd::prelude::*;

use crate::fs::Introspect;

verus! {

/// An error of making a filesystem.
#[derive(Debug)]
pub enum Error {
    /// The provider cannot make a filesystem with the requested
    /// capability.  No provider of this crate produces it yet.
    Unsupported,
}

/// Makes a filesystem with the default capabilities: every one enabled.
pub trait Make {
    type FS: Introspect;

    /// Makes a filesystem rooted at `root` whose capability queries all
    /// answer true.
    fn make(self, root: String) -> (r: Self::FS)
        ensures
            r.readable_spec(),
            r.writable_spec(),
            r.appendable_spec(),
            r.truncatable_spec(),
            r.removable_spec(),
    ;
}

/// Makes a readable filesystem.
pub trait Readable {
    type Readable;

    fn make_readable(&mut self, root: String) -> Result<Self::Readable, Error>;
}

/// Makes a writable filesystem.
pub trait Writable {
    type Writable;

    fn make_writable(&mut self, root: String) -> Result<Self::Writable, Error>;
}

/// Makes an appendable filesystem.
pub trait Appendable {
    type Appendable;

    fn make_appendable(&mut self, root: String) -> Result<Self::Appendable, Error>;
}

/// Makes a truncatable filesystem.
pub trait Truncatable {
    type Truncatable;

    fn make_truncatable(&mut self, root: String) -> Result<Self::Truncatable, Error>;
}

} // verus!
