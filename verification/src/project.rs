//! The central entity: a project is a directory subtree of a version-control
//! working tree whose root holds the manifest file.  A closed root is
//! promoted through [`Guard`] into a read-only project, or initialized first
//! if the manifest is missing.  The repository handle type `G` is opaque
//! here: the caller performs the version-control and filesystem operations
//! and hands their outcomes in as plain values; every decision about them is
//! made — and specified — in this module.

use vstd::prelude::*;

use crate::access::Closed;
use crate::access::GitAccess;
use crate::access::ReadOnly;
use crate::flox::Flox;
use crate::guard::Guard;

verus! {

/// A repository handle whose directory has not yet been confirmed to be a
/// project, together with the shared configuration.
#[derive(Debug)]
pub struct Root<'flox, S> {
    pub flox: &'flox Flox,
    pub state: S,
}

/// Failure to open a candidate directory as a project.
#[derive(Clone, Copy, Debug, PartialEq, Eq, Structural)]
pub enum OpenProjectError {
    /// The repository reported no working directory: the candidate is not
    /// inside a version-control working tree.
    WorkdirNotFound,
}

/// Failure of first-time project initialization.
#[derive(Debug)]
pub enum InitProjectError {
    /// The repository reported no working directory.
    WorkdirNotFound,
    /// The evaluator failed to scaffold the base template.
    NixInitBase(String),
    /// Adding the new manifest to version control failed.
    GitAdd(String),
}

/// Failure while deleting the project files from a working tree.
#[derive(Debug)]
pub enum CleanupInitializerError {
    /// Removing the package directory failed.
    RemovePkgs(String),
    /// Removing the manifest file failed.
    RemoveFlake(String),
}

/// A confirmed project: a subtree of a working tree that holds a manifest at
/// its root.  `Access` is the access-mode witness; `G` the repository handle
/// type it carries.
#[derive(Debug)]
pub struct Project<'flox, G, Access> {
    pub flox: &'flox Flox,
    pub git: Access,
    /// Subdirectory of the working tree the project lives in, relative to the
    /// tree's root; empty when the project sits at the root itself.
    pub subdir: String,
    /// Root directory of the working tree this project's access is rooted in.
    pub workdir: String,
    pub marker: core::marker::PhantomData<G>,
}

/// Name of the manifest file whose presence makes a directory a project.
pub fn manifest_file_name() -> (r: String)
    ensures
        r@ == "flake.nix"@,
{
    "flake.nix".to_owned()
}

/// Name of the per-package subdirectory of a project root.
pub fn pkgs_dir_name() -> (r: String)
    ensures
        r@ == "pkgs"@,
{
    "pkgs".to_owned()
}

/// The template the evaluator scaffolds a fresh project from.
pub fn default_template() -> (r: String)
    ensures
        r@ == "flox#templates._init"@,
{
    "flox#templates._init".to_owned()
}

impl<'flox, G, Access> Project<'flox, G, Access> {
    /// Construct a project value.  Kept crate-internal knowledge: outside
    /// callers obtain projects through `guard`, which first confirms that the
    /// manifest exists.
    pub fn new(flox: &'flox Flox, git: Access, subdir: String, workdir: String) -> (r: Project<
        'flox,
        G,
        Access,
    >)
        ensures
            r.flox == flox,
            r.git == git,
            r.subdir@ == subdir@,
            r.workdir@ == workdir@,
    {
        Project { flox, git, subdir, workdir, marker: core::marker::PhantomData }
    }

    /// The root directory of the project's working tree.
    pub fn workdir(&self) -> (r: Option<&String>)
        ensures
            r matches Some(w) && w@ == self.workdir@,
    {
        Some(&self.workdir)
    }

    /// The flake reference naming this project: its working-tree root.
    pub fn flakeref(&self) -> (r: String)
        ensures
            r@ == self.workdir@,
    {
        self.workdir.clone()
    }

    /// Delete the project files from a working tree, given the outcomes of
    /// the two removals (the package directory, then the manifest).  The
    /// first failure is surfaced under the variant named after the step.
    pub fn cleanup_flox(
        self,
        remove_pkgs: Result<(), String>,
        remove_flake: Result<(), String>,
    ) -> (r: Result<(), CleanupInitializerError>)
        ensures
            remove_pkgs matches Err(e) ==> (r matches Err(CleanupInitializerError::RemovePkgs(m))
                && m == e),
            remove_pkgs is Ok ==> (remove_flake matches Err(e) ==> (r matches Err(
                CleanupInitializerError::RemoveFlake(m),
            ) && m == e)),
            remove_pkgs is Ok && remove_flake is Ok ==> r is Ok,
    {
        match remove_pkgs {
            Err(e) => Err(CleanupInitializerError::RemovePkgs(e)),
            Ok(()) => match remove_flake {
                Err(e) => Err(CleanupInitializerError::RemoveFlake(e)),
                Ok(()) => Ok(()),
            },
        }
    }
}

impl<'flox, G> Root<'flox, Closed<G>> {
    /// Guard opening a project: resolves as initialized exactly when the
    /// manifest file is present at the working-tree root, and as
    /// uninitialized — handing the closed root back unchanged — when it is
    /// not.  `workdir` is what the repository reported as the root of the
    /// working tree; `has_manifest` whether the manifest file exists there.
    /// The check mutates nothing and is therefore free to repeat.
    pub fn guard(self, workdir: Option<String>, has_manifest: bool) -> (r: Result<
        Guard<Project<'flox, G, ReadOnly<G>>, Root<'flox, Closed<G>>>,
        OpenProjectError,
    >)
        ensures
            workdir is None <==> r == Err::<
                Guard<Project<'flox, G, ReadOnly<G>>, Root<'flox, Closed<G>>>,
                OpenProjectError,
            >(OpenProjectError::WorkdirNotFound),
            has_manifest ==> (workdir matches Some(w) ==> (r matches Ok(Guard::Initialized(p))
                && p.flox == self.flox && p.git == (ReadOnly { git: self.state.inner })
                && p.subdir@ == Seq::<char>::empty() && p.workdir@ == w@)),
            workdir is Some && !has_manifest ==> r == Ok::<
                Guard<Project<'flox, G, ReadOnly<G>>, Root<'flox, Closed<G>>>,
                OpenProjectError,
            >(Guard::Uninitialized(self)),
    {
        match workdir {
            None => Err(OpenProjectError::WorkdirNotFound),
            Some(w) => {
                if has_manifest {
                    let p = Project::new(self.flox, ReadOnly::new(self.state.inner), String::new(), w);
                    Ok(Guard::Initialized(p))
                } else {
                    Ok(Guard::Uninitialized(self))
                }
            },
        }
    }
}

impl<'flox, G> Guard<Project<'flox, G, ReadOnly<G>>, Root<'flox, Closed<G>>> {
    /// Initialize a new project in the working tree of a closed root, or
    /// return the existing project untouched.
    ///
    /// When the guard already holds a project, that project is returned and
    /// every other argument is ignored — no scaffolding runs, so
    /// initialization is idempotent by construction.  Otherwise `workdir` is
    /// what the repository reported as the tree root, `scaffold` the outcome
    /// of asking the evaluator to expand [`default_template`] there, and
    /// `git_add` the outcome of staging the new manifest file.
    pub fn init_project(
        self,
        workdir: Option<String>,
        scaffold: Result<(), String>,
        git_add: Result<(), String>,
    ) -> (r: Result<Project<'flox, G, ReadOnly<G>>, InitProjectError>)
        ensures
            self matches Guard::Initialized(p) ==> (r matches Ok(q) && q == p),
            self is Uninitialized && workdir is None ==> r matches Err(
                InitProjectError::WorkdirNotFound,
            ),
            self is Uninitialized && workdir is Some ==> (scaffold matches Err(e) ==> (r matches
            Err(InitProjectError::NixInitBase(m)) && m == e)),
            self is Uninitialized && workdir is Some && scaffold is Ok ==> (git_add matches Err(e)
                ==> (r matches Err(InitProjectError::GitAdd(m)) && m == e)),
            self matches Guard::Uninitialized(u) ==> (scaffold is Ok && git_add is Ok ==> (workdir
            matches Some(w) ==> (r matches Ok(p) && p.flox == u.flox && p.git == (ReadOnly {
                git: u.state.inner,
            }) && p.subdir@ == Seq::<char>::empty() && p.workdir@ == w@))),
    {
        match self {
            Guard::Initialized(p) => Ok(p),
            Guard::Uninitialized(u) => {
                match workdir {
                    None => Err(InitProjectError::WorkdirNotFound),
                    Some(w) => {
                        match scaffold {
                            Err(e) => Err(InitProjectError::NixInitBase(e)),
                            Ok(()) => match git_add {
                                Err(e) => Err(InitProjectError::GitAdd(e)),
                                Ok(()) => Ok(
                                    Project::new(
                                        u.flox,
                                        ReadOnly::new(u.state.inner),
                                        String::new(),
                                        w,
                                    ),
                                ),
                            },
                        }
                    },
                }
            },
        }
    }
}

} // verus!
