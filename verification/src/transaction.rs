//! The transactional mutation protocol.  A read-only project enters a
//! transaction by moving to a sandbox: an ephemeral copy of its working tree
//! with a freshly discovered repository handle.  Mutations are ordinary file
//! writes inside the sandbox, each recorded as an [`FileAction`] entry of the
//! [`Index`]; the index is the only record of intent.  Commit folds the index
//! back into the original tree — entry by entry, in index order — and
//! returns a read-only project over the original handle.  Until then nothing
//! touches the original tree: every staged write lands under the sandbox
//! root, which is what the isolation law at the bottom of this module states.

use vstd::prelude::*;

use crate::access::GitSandBox;
use crate::access::ReadOnly;
use crate::index::FileAction;
use crate::index::Index;
use crate::index::action_in;
use crate::index::spec_insert;
use crate::paths::is_path_prefix;
use crate::paths::joined;
use crate::paths::join_path;
use crate::paths::lemma_disjoint_roots_isolate;
use crate::paths::lemma_join_preserves_prefix;
use crate::paths::parent_of;
use crate::paths::parent_path;
use crate::project::Project;

verus! {

/// Failure while building the sandbox for a transaction.  Any failure
/// abandons the half-built sandbox; the original tree is untouched.
#[derive(Debug)]
pub enum TransactionEnterError {
    /// Allocating the temporary directory failed.
    CreateTempdir(String),
    /// Enumerating an entry of the working tree failed.
    Walkdir(String),
    /// Recreating a directory inside the sandbox failed.
    CopyDir(String),
    /// Copying a file into the sandbox failed.
    CopyFile(String),
}

/// Failure while committing a transaction, named after the step that
/// failed.  Entries already applied when a step fails stay applied: commit
/// is best-effort sequential application, not atomic, and performs no
/// rollback.
#[derive(Debug)]
pub enum TransactionCommitError {
    /// Recreating a destination's parent directory failed.
    CreateDir(String),
    /// Moving a staged file out of the sandbox failed.
    RenameFile(String),
    /// Staging a path through version control failed.
    GitAdd(String),
    /// Removing a path through version control failed.
    GitRemove(String),
    /// Committing through version control failed.
    GitCommit(String),
    /// Pushing through version control failed.
    GitPush(String),
}

/// The materialized sandbox a transaction moves into: its directory path,
/// the repository handle discovered inside it, and the value owning the
/// directory on disk.
#[derive(Debug)]
pub struct SandboxPrep<G> {
    /// Root directory of the sandbox copy.
    pub temp_dir: String,
    /// Repository handle discovered at `temp_dir`.
    pub git: G,
    /// Owns the sandbox directory; dropping it removes the directory.
    pub handle: tempfile::TempDir,
}

/// One step of applying a committed index to the original tree.
#[derive(Debug)]
pub enum CommitStep {
    /// Ensure the destination's parent directory exists.
    CreateDirAll(String),
    /// Move a staged file out of the sandbox into the original tree.
    Rename(String, String),
    /// Stage a path (relative to the tree root) in version control.
    GitAdd(String),
    /// Remove a path (relative to the tree root) through version control,
    /// recursively if it is a directory.
    GitRemove(String),
}

/// Specification-level image of a [`CommitStep`].
pub enum CommitStepSpec {
    CreateDirAll(Seq<char>),
    Rename(Seq<char>, Seq<char>),
    GitAdd(Seq<char>),
    GitRemove(Seq<char>),
}

impl View for CommitStep {
    type V = CommitStepSpec;

    open spec fn view(&self) -> CommitStepSpec {
        match self {
            CommitStep::CreateDirAll(p) => CommitStepSpec::CreateDirAll(p@),
            CommitStep::Rename(f, t) => CommitStepSpec::Rename(f@, t@),
            CommitStep::GitAdd(p) => CommitStepSpec::GitAdd(p@),
            CommitStep::GitRemove(p) => CommitStepSpec::GitRemove(p@),
        }
    }
}

/// The steps applying one index entry: an added file first gets its parent
/// directory recreated in the original tree (when it has one), is then moved
/// from the sandbox to the original tree at the same relative path and
/// staged; a deleted path is removed through version control.
pub open spec fn steps_for_entry(
    origin: Seq<char>,
    sandbox: Seq<char>,
    path: Seq<char>,
    a: FileAction,
) -> Seq<CommitStepSpec> {
    match a {
        FileAction::Add => (match parent_path(path) {
            Some(par) => seq![CommitStepSpec::CreateDirAll(joined(origin, par))],
            None => Seq::<CommitStepSpec>::empty(),
        }) + seq![
            CommitStepSpec::Rename(joined(sandbox, path), joined(origin, path)),
            CommitStepSpec::GitAdd(path),
        ],
        FileAction::Delete => seq![CommitStepSpec::GitRemove(path)],
    }
}

/// The full apply plan of an index: the concatenation of each entry's steps,
/// in the index's own iteration order.
pub open spec fn commit_steps(
    origin: Seq<char>,
    sandbox: Seq<char>,
    entries: Seq<(Seq<char>, FileAction)>,
) -> Seq<CommitStepSpec>
    decreases entries.len(),
{
    if entries.len() == 0 {
        Seq::<CommitStepSpec>::empty()
    } else {
        steps_for_entry(origin, sandbox, entries[0].0, entries[0].1) + commit_steps(
            origin,
            sandbox,
            entries.skip(1),
        )
    }
}

proof fn lemma_commit_steps_push(
    origin: Seq<char>,
    sandbox: Seq<char>,
    entries: Seq<(Seq<char>, FileAction)>,
    e: (Seq<char>, FileAction),
)
    ensures
        commit_steps(origin, sandbox, entries.push(e)) == commit_steps(origin, sandbox, entries)
            + steps_for_entry(origin, sandbox, e.0, e.1),
    decreases entries.len(),
{
    let hd = steps_for_entry(origin, sandbox, e.0, e.1);
    let pushed = entries.push(e);
    assert(pushed.len() == entries.len() + 1);
    assert(commit_steps(origin, sandbox, pushed) == steps_for_entry(
        origin,
        sandbox,
        pushed[0].0,
        pushed[0].1,
    ) + commit_steps(origin, sandbox, pushed.skip(1)));
    if entries.len() == 0 {
        assert(pushed[0] == e);
        assert(pushed.skip(1) =~= Seq::<(Seq<char>, FileAction)>::empty());
        assert(commit_steps(origin, sandbox, pushed.skip(1)) == Seq::<CommitStepSpec>::empty());
        assert(commit_steps(origin, sandbox, entries) == Seq::<CommitStepSpec>::empty());
        assert(hd + Seq::<CommitStepSpec>::empty() =~= hd);
        assert(Seq::<CommitStepSpec>::empty() + hd =~= hd);
    } else {
        assert(pushed[0] == entries[0]);
        assert(pushed.skip(1) =~= entries.skip(1).push(e));
        lemma_commit_steps_push(origin, sandbox, entries.skip(1), e);
        let hd0 = steps_for_entry(origin, sandbox, entries[0].0, entries[0].1);
        let mid = commit_steps(origin, sandbox, entries.skip(1));
        assert(commit_steps(origin, sandbox, pushed) == hd0 + (mid + hd));
        assert(commit_steps(origin, sandbox, entries) == hd0 + mid);
        assert(hd0 + (mid + hd) =~= (hd0 + mid) + hd);
    }
}

/// The relative path of the manifest fragment a default environment is
/// scaffolded at.
pub fn default_env_file_name() -> (r: String)
    ensures
        r@ == "flox.nix"@,
{
    "flox.nix".to_owned()
}

/// The built-in manifest fragment written for a default environment.
pub fn default_env_contents() -> (r: String)
    ensures
        r@ == "{ }\n"@,
{
    "{ }\n".to_owned()
}

/// Where inside the sandbox one entry of the original working tree is
/// recreated: the entry's path with the original root replaced by the
/// sandbox root.  `None` when `entry` does not lie strictly under `root`.
pub fn sandbox_entry_dest(temp_dir: &str, root: &str, entry: &str) -> (r: Option<String>)
    ensures
        r is Some <==> root@.len() < entry@.len() && entry@.take(root@.len() as int) == root@
            && entry@[root@.len() as int] == '/',
        r matches Some(d) ==> d@ == joined(temp_dir@, entry@.skip(root@.len() as int + 1)),
{
    let rl = root.unicode_len();
    let el = entry.unicode_len();
    if el <= rl {
        return None;
    }
    let mut i: usize = 0;
    while i < rl
        invariant
            rl == root@.len(),
            el == entry@.len(),
            rl < el,
            i <= rl,
            forall|j: int| 0 <= j < i ==> entry@[j] == root@[j],
        decreases rl - i,
    {
        if entry.get_char(i) != root.get_char(i) {
            proof {
                assert(entry@.take(rl as int)[i as int] != root@[i as int]);
            }
            return None;
        }
        i = i + 1;
    }
    proof {
        assert(entry@.take(rl as int) =~= root@);
    }
    if entry.get_char(rl) != '/' {
        return None;
    }
    let rel = entry.substring_char(rl + 1, el);
    let dest = join_path(temp_dir, rel);
    proof {
        assert(rel@ =~= entry@.skip(rl as int + 1));
    }
    Some(dest)
}

impl<'flox, G> Project<'flox, G, ReadOnly<G>> {
    /// Move this read-only project into a transaction.  `prep` is the
    /// outcome of materializing the sandbox: allocating a temporary
    /// directory, copying every entry of the working tree into it (each
    /// destination computed by [`sandbox_entry_dest`]) and discovering a
    /// repository handle there.  A preparation failure is handed back
    /// unchanged and the original tree is untouched.  On success the project
    /// value moves to sandboxed access — retaining the original access for
    /// commit — and is paired with an empty index.
    pub fn enter_transaction(self, prep: Result<SandboxPrep<G>, TransactionEnterError>) -> (r:
        Result<(Project<'flox, G, GitSandBox<G>>, Index), TransactionEnterError>)
        ensures
            prep matches Err(e) ==> (r matches Err(e2) && e2 == e),
            prep matches Ok(p) ==> (r matches Ok(pair) && pair.1@ == Seq::<
                (Seq<char>, FileAction),
            >::empty() && pair.1.wf() && pair.0.flox == self.flox && pair.0.subdir@ == self.subdir@
                && pair.0.workdir@ == p.temp_dir@ && pair.0.git.git == p.git
                && pair.0.git.origin == self.git && pair.0.git.origin_workdir@ == self.workdir@),
    {
        match prep {
            Err(e) => Err(e),
            Ok(p) => {
                let sandbox = GitSandBox {
                    git: p.git,
                    origin: self.git,
                    origin_workdir: self.workdir,
                    temp_dir_handle: p.handle,
                };
                let project = Project {
                    flox: self.flox,
                    git: sandbox,
                    subdir: self.subdir,
                    workdir: p.temp_dir,
                    marker: core::marker::PhantomData,
                };
                Ok((project, Index::new()))
            },
        }
    }
}

impl<'flox, G> Project<'flox, G, GitSandBox<G>> {
    /// The plan applying `index` to the original working tree: for each
    /// entry, in index order, the steps of [`steps_for_entry`] with this
    /// sandbox's root as source and the original root as destination.
    pub fn commit_plan(&self, index: &Index) -> (r: Vec<CommitStep>)
        ensures
            r@.map_values(|s: CommitStep| s@) == commit_steps(
                self.git.origin_workdir@,
                self.workdir@,
                index@,
            ),
    {
        let ghost origin = self.git.origin_workdir@;
        let ghost sandbox = self.workdir@;
        let n = index.entries.len();
        let mut out: Vec<CommitStep> = Vec::new();
        let mut i: usize = 0;
        proof {
            assert(index@.take(0) =~= Seq::<(Seq<char>, FileAction)>::empty());
            assert(out@.map_values(|s: CommitStep| s@) =~= commit_steps(
                origin,
                sandbox,
                index@.take(0),
            ));
        }
        while i < n
            invariant
                n == index@.len(),
                i <= n,
                origin == self.git.origin_workdir@,
                sandbox == self.workdir@,
                out@.map_values(|s: CommitStep| s@) == commit_steps(
                    origin,
                    sandbox,
                    index@.take(i as int),
                ),
            decreases n - i,
        {
            let ghost out0 = out@;
            let path = &index.entries[i].0;
            let action = index.entries[i].1;
            match action {
                FileAction::Add => {
                    match parent_of(path.as_str()) {
                        Some(par) => {
                            out.push(
                                CommitStep::CreateDirAll(
                                    join_path(self.git.origin_workdir.as_str(), par.as_str()),
                                ),
                            );
                        },
                        None => {},
                    }
                    out.push(
                        CommitStep::Rename(
                            join_path(self.workdir.as_str(), path.as_str()),
                            join_path(self.git.origin_workdir.as_str(), path.as_str()),
                        ),
                    );
                    out.push(CommitStep::GitAdd(path.clone()));
                },
                FileAction::Delete => {
                    out.push(CommitStep::GitRemove(path.clone()));
                },
            }
            proof {
                let e = index@[i as int];
                assert(out@.map_values(|s: CommitStep| s@) =~= out0.map_values(
                    |s: CommitStep| s@,
                ) + steps_for_entry(origin, sandbox, e.0, e.1));
                lemma_commit_steps_push(origin, sandbox, index@.take(i as int), e);
                assert(index@.take(i + 1) =~= index@.take(i as int).push(e));
            }
            i = i + 1;
        }
        proof {
            assert(index@.take(n as int) =~= index@);
        }
        out
    }

    /// Close the transaction.  `applied` is the outcome of performing the
    /// plan of [`Self::commit_plan`], a step failure carried as the variant
    /// named after the step; it is handed back unchanged, and entries applied
    /// before the failure stay applied — no rollback.  Either way the index
    /// and the sandbox are consumed, so the sandbox directory is dropped; on
    /// success a read-only project over the original working tree returns.
    pub fn commit_transaction(
        self,
        index: Index,
        message: &str,
        applied: Result<(), TransactionCommitError>,
    ) -> (r: Result<Project<'flox, G, ReadOnly<G>>, TransactionCommitError>)
        ensures
            applied matches Err(e) ==> (r matches Err(e2) && e2 == e),
            applied is Ok ==> (r matches Ok(p) && p.flox == self.flox && p.git == self.git.origin
                && p.subdir@ == self.subdir@ && p.workdir@ == self.git.origin_workdir@),
    {
        let _ = index;
        let _ = message;
        let GitSandBox { git: _, origin, origin_workdir, temp_dir_handle } = self.git;
        let _ = temp_dir_handle;
        match applied {
            Err(e) => Err(e),
            Ok(()) => Ok(
                Project {
                    flox: self.flox,
                    git: origin,
                    subdir: self.subdir,
                    workdir: origin_workdir,
                    marker: core::marker::PhantomData,
                },
            ),
        }
    }

    /// Scaffold the default environment: hand back the write the caller must
    /// perform inside the sandbox — the manifest fragment's target path under
    /// the sandbox root, with the built-in contents — and stage an `Add` for
    /// its fixed relative path in the index.
    pub fn create_default_env(&self, index: &mut Index) -> (r: (String, String))
        requires
            old(index).wf(),
        ensures
            final(index)@ == spec_insert(old(index)@, "flox.nix"@, FileAction::Add),
            final(index).wf(),
            r.0@ == joined(self.workdir@, "flox.nix"@),
            r.1@ == "{ }\n"@,
    {
        let name = default_env_file_name();
        let target = join_path(self.workdir.as_str(), name.as_str());
        let contents = default_env_contents();
        index.insert(name, FileAction::Add);
        (target, contents)
    }
}

/// Law: sandbox isolation.  Staged writes land under the sandbox root, and —
/// as long as neither the sandbox directory nor the original working tree
/// sits inside the other — never under the original root; the original tree
/// cannot change before commit.
pub proof fn lemma_sandbox_isolation(origin: Seq<char>, sandbox: Seq<char>, rel: Seq<char>)
    requires
        !is_path_prefix(origin, sandbox),
        !is_path_prefix(sandbox, origin),
    ensures
        is_path_prefix(sandbox, joined(sandbox, rel)),
        !is_path_prefix(origin, joined(sandbox, rel)),
{
    lemma_join_preserves_prefix(sandbox, rel);
    lemma_disjoint_roots_isolate(origin, sandbox, rel);
}

/// Law: a staged addition survives to commit.  Whatever else the index
/// holds, a path whose recorded action is `Add` yields both the move of the
/// staged file from the sandbox into the original tree and the staging of
/// that path in version control.
pub proof fn lemma_staged_add_reaches_origin(
    origin: Seq<char>,
    sandbox: Seq<char>,
    entries: Seq<(Seq<char>, FileAction)>,
    p: Seq<char>,
)
    requires
        action_in(entries, p) == Some(FileAction::Add),
    ensures
        commit_steps(origin, sandbox, entries).contains(
            CommitStepSpec::Rename(joined(sandbox, p), joined(origin, p)),
        ),
        commit_steps(origin, sandbox, entries).contains(CommitStepSpec::GitAdd(p)),
    decreases entries.len(),
{
    let cs = commit_steps(origin, sandbox, entries);
    let head = steps_for_entry(origin, sandbox, entries[0].0, entries[0].1);
    let rename = CommitStepSpec::Rename(joined(sandbox, p), joined(origin, p));
    let add = CommitStepSpec::GitAdd(p);
    if entries[0].0 == p {
        assert(entries[0].1 == FileAction::Add);
        let base: int = match parent_path(p) {
            Some(_) => 1,
            None => 0,
        };
        assert(head[base] == rename);
        assert(head[base + 1] == add);
        assert(cs[base] == rename);
        assert(cs[base + 1] == add);
        assert(cs.contains(rename));
        assert(cs.contains(add));
    } else {
        let rest = commit_steps(origin, sandbox, entries.skip(1));
        lemma_staged_add_reaches_origin(origin, sandbox, entries.skip(1), p);
        let j = choose|j: int| 0 <= j < rest.len() && rest[j] == rename;
        assert(cs[head.len() + j] == rename);
        assert(cs.contains(rename));
        let k = choose|k: int| 0 <= k < rest.len() && rest[k] == add;
        assert(cs[head.len() + k] == add);
        assert(cs.contains(add));
    }
}

} // verus!
