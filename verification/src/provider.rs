//! The provider: a factory for sandboxed filesystems over a storage
//! backend.

pub mod make;

use vstd::prelude::*;

use crate::sandbox::FileSystem;

verus! {

/// Makes sandboxed filesystems over the storage backend it holds.
pub struct Provider<B> {
    backend: B,
}

impl<B> Provider<B> {
    pub closed spec fn backend_spec(&self) -> B {
        self.backend
    }

    pub fn new(backend: B) -> (r: Self)
        ensures
            r.backend_spec() == backend,
    {
        Provider { backend }
    }
}

impl<B> make::Make for Provider<B> {
    type FS = FileSystem<B>;

    /// Makes a filesystem rooted at `root`, over this provider's backend,
    /// with every capability enabled.
    fn make(self, root: String) -> (r: FileSystem<B>)
        ensures
            r.root_spec() == root@,
            r.backend_spec() == self.backend_spec(),
    {
        FileSystem::new(root, self.backend)
    }
}

} // verus!
