//! Verified core of a project SDK: a project is a version-controlled
//! directory tree holding a build manifest and zero or more named
//! environments.  The crate models the lifecycle of such a project — the
//! guard that tells an initialized project from a bare working tree, the
//! type-state access modes (closed, read-only, sandboxed), environment
//! discovery, and the transactional mutation protocol that stages file
//! actions in an isolated sandbox and folds them back into the original
//! working tree at commit time.
//!
//! Filesystem work, the version-control tool and the manifest evaluator run
//! outside this crate; the functions here take their outcomes as plain
//! values and return the decisions and action plans, each with a contract.

pub mod access;
pub mod environment;
pub mod flox;
pub mod guard;
pub mod index;
pub mod package;
pub mod paths;
pub mod project;
pub mod transaction;
