//! The crate's model of filesystem paths: plain strings whose components are
//! separated by `'/'`.  Joining, parent lookup and the path-prefix relation
//! are defined here; the transaction planner builds every absolute path it
//! emits through these functions.

use vstd::prelude::*;

verus! {

/// The path obtained by placing `rel` under the directory `root`.
pub open spec fn joined(root: Seq<char>, rel: Seq<char>) -> Seq<char> {
    root + seq!['/'] + rel
}

/// `a` names the same directory as `b` or one of `b`'s ancestors.
pub open spec fn is_path_prefix(a: Seq<char>, b: Seq<char>) -> bool {
    a == b || (a.len() < b.len() && b.take(a.len() as int) == a && b[a.len() as int] == '/')
}

/// Index of the last `'/'` in `p`, or `-1` if `p` has none.
pub open spec fn last_slash(p: Seq<char>) -> int
    decreases p.len(),
{
    if p.len() == 0 {
        -1
    } else if p[p.len() - 1] == '/' {
        p.len() - 1
    } else {
        last_slash(p.drop_last())
    }
}

/// The parent of a relative path: everything before its last `'/'`, or
/// nothing when the path is a bare file name.
pub open spec fn parent_path(p: Seq<char>) -> Option<Seq<char>> {
    if last_slash(p) >= 0 {
        Some(p.take(last_slash(p)))
    } else {
        None
    }
}

pub open spec fn view_opt_string(r: Option<String>) -> Option<Seq<char>> {
    match r {
        Some(s) => Some(s@),
        None => None,
    }
}

/// Place `rel` under the directory `root`.
pub fn join_path(root: &str, rel: &str) -> (r: String)
    ensures
        r@ == joined(root@, rel@),
{
    proof {
        reveal_strlit("/");
    }
    let mut s = root.to_owned();
    s.append("/");
    s.append(rel);
    proof {
        assert(s@ =~= joined(root@, rel@));
    }
    s
}

/// The parent directory of `p`, or `None` when `p` has no `'/'`.
pub fn parent_of(p: &str) -> (r: Option<String>)
    ensures
        view_opt_string(r) == parent_path(p@),
{
    let n = p.unicode_len();
    let mut i: usize = 0;
    let mut found: Option<usize> = None;
    while i < n
        invariant
            n == p@.len(),
            i <= n,
            match found {
                Some(j) => j < i && last_slash(p@.take(i as int)) == j as int,
                None => last_slash(p@.take(i as int)) == -1,
            },
        decreases n - i,
    {
        let c = p.get_char(i);
        proof {
            assert(p@.take(i + 1).drop_last() =~= p@.take(i as int));
            assert(p@.take(i + 1)[i as int] == p@[i as int]);
        }
        if c == '/' {
            found = Some(i);
        }
        i = i + 1;
    }
    proof {
        assert(p@.take(n as int) =~= p@);
    }
    match found {
        Some(j) => {
            let q = p.substring_char(0, j).to_owned();
            proof {
                assert(q@ =~= p@.take(j as int));
            }
            Some(q)
        },
        None => None,
    }
}

/// Joining never escapes the directory joined under.
pub proof fn lemma_join_preserves_prefix(root: Seq<char>, rel: Seq<char>)
    ensures
        is_path_prefix(root, joined(root, rel)),
{
    let b = joined(root, rel);
    assert(b.take(root.len() as int) =~= root);
    assert(b[root.len() as int] == '/');
}

/// A path placed under one directory never lands under a second directory,
/// provided neither directory sits inside the other.
pub proof fn lemma_disjoint_roots_isolate(origin: Seq<char>, sandbox: Seq<char>, rel: Seq<char>)
    requires
        !is_path_prefix(origin, sandbox),
        !is_path_prefix(sandbox, origin),
    ensures
        !is_path_prefix(origin, joined(sandbox, rel)),
{
    let b = joined(sandbox, rel);
    if is_path_prefix(origin, b) {
        if origin == b {
            assert(origin.take(sandbox.len() as int) =~= sandbox);
            assert(is_path_prefix(sandbox, origin));
        } else {
            if origin.len() < sandbox.len() {
                assert(sandbox.take(origin.len() as int) =~= b.take(origin.len() as int));
                assert(is_path_prefix(origin, sandbox));
            } else if origin.len() == sandbox.len() {
                assert(b.take(origin.len() as int) =~= sandbox);
                assert(is_path_prefix(origin, sandbox));
            } else {
                let o = b.take(origin.len() as int);
                assert(o.take(sandbox.len() as int) =~= sandbox);
                assert(o[sandbox.len() as int] == '/');
                assert(is_path_prefix(sandbox, origin));
            }
        }
    }
}

} // verus!
