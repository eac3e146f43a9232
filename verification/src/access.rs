//! Access-mode witnesses over a repository handle.  The mode of a project is
//! a type, never a runtime flag: a *closed* handle has not yet been confirmed
//! to be a project, a *read-only* handle permits no mutation, and a
//! *sandboxed* handle permits mutation confined to an ephemeral copy of the
//! working tree.  The repository handle type `G` itself is opaque to this
//! crate; it is carried by ownership from one mode to the next and handed
//! back to the caller, which performs the actual version-control operations.

use vstd::prelude::*;

verus! {

/// Declares `tempfile::TempDir` so a sandbox can own its temporary
/// directory: the directory is removed when the owning value is dropped,
/// which is what guarantees an abandoned transaction leaves nothing behind.
#[verifier::external_type_specification]
#[verifier::external_body]
pub struct ExTempDir(tempfile::TempDir);

/// A repository handle not yet confirmed to be a project.
#[derive(Debug)]
pub struct Closed<G> {
    pub inner: G,
}

/// Read-only access to a repository: no operation through this witness
/// mutates the working tree.
#[derive(Debug)]
pub struct ReadOnly<G> {
    pub git: G,
}

/// Sandboxed access: a repository handle freshly discovered inside an
/// ephemeral copy of the working tree, together with the retained read-only
/// access to the original tree that commit returns to.  Dropping this value
/// drops `temp_dir_handle` and with it the sandbox directory.
#[derive(Debug)]
pub struct GitSandBox<G> {
    /// Handle rooted in the sandbox copy.
    pub git: G,
    /// The original access, to be handed back by commit.
    pub origin: ReadOnly<G>,
    /// Root directory of the original working tree.
    pub origin_workdir: String,
    /// Owns the sandbox directory on disk.
    pub temp_dir_handle: tempfile::TempDir,
}

impl<G> Closed<G> {
    pub fn new(inner: G) -> (r: Closed<G>)
        ensures
            r.inner == inner,
    {
        Closed { inner }
    }
}

impl<G> ReadOnly<G> {
    pub fn new(git: G) -> (r: ReadOnly<G>)
        ensures
            r.git == git,
    {
        ReadOnly { git }
    }
}

/// Operations available in every access mode that has confirmed a project.
pub trait GitAccess<G: Clone>: Sized {
    /// The handle over the *original* (never the sandboxed) working tree
    /// this access mode retains.
    spec fn origin_git(&self) -> G;

    /// The repository handle to run version-control operations against in
    /// this mode: the original tree when read-only, the sandbox copy when
    /// sandboxed.
    fn git(&self) -> &G;

    /// A fresh read-only access over the *original* working tree, for values
    /// derived from the project: the returned handle is a clone of the
    /// retained original one, so environments never receive write access and
    /// never alias the sandbox.
    fn read_only(&self) -> (r: ReadOnly<G>)
        ensures
            cloned::<G>(self.origin_git(), r.git),
    ;
}

impl<G: Clone> GitAccess<G> for ReadOnly<G> {
    open spec fn origin_git(&self) -> G {
        self.git
    }

    fn git(&self) -> &G {
        &self.git
    }

    fn read_only(&self) -> (r: ReadOnly<G>) {
        let g = self.git.clone();
        ReadOnly { git: g }
    }
}

impl<G: Clone> GitAccess<G> for GitSandBox<G> {
    open spec fn origin_git(&self) -> G {
        self.origin.git
    }

    fn git(&self) -> &G {
        &self.git
    }

    fn read_only(&self) -> (r: ReadOnly<G>) {
        let g = self.origin.git.clone();
        ReadOnly { git: g }
    }
}

} // verus!
