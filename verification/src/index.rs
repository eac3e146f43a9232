//! The transaction index: an ordered record of pending file actions, keyed
//! by path relative to the project root.  Keys are unique — staging the same
//! path twice keeps the entry's position and retains only the last action —
//! and commit applies the entries in the index's own iteration order.

use vstd::prelude::*;

verus! {

/// A pending action on one file of the working tree.
#[derive(Clone, Copy, Debug, PartialEq, Eq, Structural)]
pub enum FileAction {
    /// Move the staged file from the sandbox into the original tree and add
    /// it to version control.
    Add,
    /// Remove the path from the original tree through version control.
    Delete,
}

/// What `Index::insert` does to the entry sequence: replaces the action of
/// an existing key in place, or appends a new entry at the end.
pub open spec fn spec_insert(
    s: Seq<(Seq<char>, FileAction)>,
    k: Seq<char>,
    a: FileAction,
) -> Seq<(Seq<char>, FileAction)>
    decreases s.len(),
{
    if s.len() == 0 {
        seq![(k, a)]
    } else if s[0].0 == k {
        seq![(k, a)] + s.skip(1)
    } else {
        seq![s[0]] + spec_insert(s.skip(1), k, a)
    }
}

/// The action recorded for `k`, if any.
pub open spec fn action_in(s: Seq<(Seq<char>, FileAction)>, k: Seq<char>) -> Option<FileAction>
    decreases s.len(),
{
    if s.len() == 0 {
        None
    } else if s[0].0 == k {
        Some(s[0].1)
    } else {
        action_in(s.skip(1), k)
    }
}

/// An ordered mapping from relative path to pending action.
#[derive(Debug)]
pub struct Index {
    pub entries: Vec<(String, FileAction)>,
}

impl View for Index {
    type V = Seq<(Seq<char>, FileAction)>;

    open spec fn view(&self) -> Seq<(Seq<char>, FileAction)> {
        self.entries@.map(|i: int, e: (String, FileAction)| (e.0@, e.1))
    }
}

impl Index {
    /// Keys are unique.
    pub open spec fn wf(&self) -> bool {
        forall|i: int, j: int|
            0 <= i < j < self@.len() ==> #[trigger] self@[i].0 != #[trigger] self@[j].0
    }

    /// An empty index; `enter_transaction` starts every transaction with one.
    pub fn new() -> (r: Index)
        ensures
            r@ == Seq::<(Seq<char>, FileAction)>::empty(),
            r.wf(),
    {
        let r = Index { entries: Vec::new() };
        proof {
            assert(r@ =~= Seq::<(Seq<char>, FileAction)>::empty());
        }
        r
    }

    pub fn len(&self) -> (r: usize)
        ensures
            r == self@.len(),
    {
        self.entries.len()
    }

    /// Stage `action` for `path`; if `path` was already staged, only the
    /// action is replaced (last write wins).
    pub fn insert(&mut self, path: String, action: FileAction)
        requires
            old(self).wf(),
        ensures
            final(self)@ == spec_insert(old(self)@, path@, action),
            final(self).wf(),
            action_in(final(self)@, path@) == Some(action),
    {
        let ghost s0 = old(self)@;
        let n = self.entries.len();
        let mut i: usize = 0;
        let mut found: Option<usize> = None;
        while i < n && found.is_none()
            invariant
                self@ == s0,
                self.wf(),
                n == self@.len(),
                i <= n,
                match found {
                    Some(p) => p < n && self@[p as int].0 == path@ && forall|j: int|
                        0 <= j < p ==> self@[j].0 != path@,
                    None => forall|j: int| 0 <= j < i ==> self@[j].0 != path@,
                },
            decreases n - i,
        {
            if self.entries[i].0 == path {
                found = Some(i);
            }
            i = i + 1;
        }
        match found {
            Some(p) => {
                let old_pair = self.entries.remove(p);
                self.entries.insert(p, (path, action));
                proof {
                    assert(old_pair.0@ == s0[p as int].0);
                    assert(self@ =~= s0.update(p as int, (path@, action)));
                    lemma_spec_insert_found(s0, path@, action, p as int);
                }
            },
            None => {
                self.entries.push((path, action));
                proof {
                    assert(self@ =~= s0.push((path@, action)));
                    lemma_spec_insert_missing(s0, path@, action);
                }
            },
        }
        proof {
            lemma_index_insert_lookup(s0, path@, path@, action);
        }
    }

    /// The action currently staged for `path`, if any.
    pub fn get(&self, path: &String) -> (r: Option<FileAction>)
        ensures
            r == action_in(self@, path@),
    {
        let n = self.entries.len();
        let mut i: usize = 0;
        proof {
            assert(self@.skip(0) =~= self@);
        }
        while i < n
            invariant
                n == self@.len(),
                i <= n,
                action_in(self@, path@) == action_in(self@.skip(i as int), path@),
            decreases n - i,
        {
            proof {
                assert(self@.skip(i as int).skip(1) =~= self@.skip(i + 1));
                assert(self@.skip(i as int)[0] == self@[i as int]);
            }
            if self.entries[i].0 == *path {
                return Some(self.entries[i].1);
            }
            i = i + 1;
        }
        proof {
            assert(self@.skip(n as int) =~= Seq::<(Seq<char>, FileAction)>::empty());
        }
        None
    }
}

/// Inserting an existing key rewrites its entry in place.
proof fn lemma_spec_insert_found(
    s: Seq<(Seq<char>, FileAction)>,
    k: Seq<char>,
    a: FileAction,
    i: int,
)
    requires
        0 <= i < s.len(),
        s[i].0 == k,
        forall|j: int| 0 <= j < i ==> s[j].0 != k,
    ensures
        spec_insert(s, k, a) == s.update(i, (k, a)),
    decreases i,
{
    if i == 0 {
        assert(spec_insert(s, k, a) == seq![(k, a)] + s.skip(1));
        assert(seq![(k, a)] + s.skip(1) =~= s.update(0, (k, a)));
    } else {
        assert(s[0].0 != k);
        lemma_spec_insert_found(s.skip(1), k, a, i - 1);
        assert(seq![s[0]] + s.skip(1).update(i - 1, (k, a)) =~= s.update(i, (k, a)));
    }
}

/// Inserting a fresh key appends its entry at the end.
proof fn lemma_spec_insert_missing(s: Seq<(Seq<char>, FileAction)>, k: Seq<char>, a: FileAction)
    requires
        forall|j: int| 0 <= j < s.len() ==> s[j].0 != k,
    ensures
        spec_insert(s, k, a) == s.push((k, a)),
    decreases s.len(),
{
    if s.len() == 0 {
        assert(spec_insert(s, k, a) =~= s.push((k, a)));
    } else {
        assert(s[0].0 != k);
        lemma_spec_insert_missing(s.skip(1), k, a);
        assert(seq![s[0]] + s.skip(1).push((k, a)) =~= s.push((k, a)));
    }
}

/// Law: staging the same path twice retains only the last action — the
/// earlier insertion leaves no trace in the index.
pub proof fn lemma_index_last_write_wins(
    s: Seq<(Seq<char>, FileAction)>,
    k: Seq<char>,
    a1: FileAction,
    a2: FileAction,
)
    ensures
        spec_insert(spec_insert(s, k, a1), k, a2) == spec_insert(s, k, a2),
    decreases s.len(),
{
    if s.len() == 0 {
        assert(spec_insert(spec_insert(s, k, a1), k, a2) =~= spec_insert(s, k, a2));
    } else if s[0].0 == k {
        assert(spec_insert(s, k, a1) == seq![(k, a1)] + s.skip(1));
        assert((seq![(k, a1)] + s.skip(1))[0].0 == k);
        assert((seq![(k, a1)] + s.skip(1)).skip(1) =~= s.skip(1));
    } else {
        lemma_index_last_write_wins(s.skip(1), k, a1, a2);
        assert((seq![s[0]] + spec_insert(s.skip(1), k, a1))[0] == s[0]);
        assert((seq![s[0]] + spec_insert(s.skip(1), k, a1)).skip(1) =~= spec_insert(
            s.skip(1),
            k,
            a1,
        ));
        assert(spec_insert(spec_insert(s, k, a1), k, a2) =~= spec_insert(s, k, a2));
    }
}

/// Law: an insertion is observed by lookups — the inserted key maps to the
/// new action and every other key keeps its old one.
pub proof fn lemma_index_insert_lookup(
    s: Seq<(Seq<char>, FileAction)>,
    k: Seq<char>,
    k2: Seq<char>,
    a: FileAction,
)
    ensures
        action_in(spec_insert(s, k, a), k) == Some(a),
        k2 != k ==> action_in(spec_insert(s, k, a), k2) == action_in(s, k2),
    decreases s.len(),
{
    if s.len() == 0 {
        let t = seq![(k, a)];
        assert(t.skip(1) =~= Seq::<(Seq<char>, FileAction)>::empty());
        assert(t[0].0 == k);
        if k2 != k {
            assert(action_in(t, k2) == action_in(t.skip(1), k2));
        }
    } else if s[0].0 == k {
        let t = seq![(k, a)] + s.skip(1);
        assert(t[0].0 == k);
        assert(t.skip(1) =~= s.skip(1));
        if k2 != k {
            assert(action_in(t, k2) == action_in(s.skip(1), k2));
            assert(action_in(s, k2) == action_in(s.skip(1), k2));
        }
    } else {
        lemma_index_insert_lookup(s.skip(1), k, k2, a);
        let t = seq![s[0]] + spec_insert(s.skip(1), k, a);
        assert(t[0] == s[0]);
        assert(t.skip(1) =~= spec_insert(s.skip(1), k, a));
        if k2 != k {
            if s[0].0 == k2 {
                assert(action_in(t, k2) == Some(s[0].1));
                assert(action_in(s, k2) == Some(s[0].1));
            } else {
                assert(action_in(t, k2) == action_in(t.skip(1), k2));
                assert(action_in(s, k2) == action_in(s.skip(1), k2));
            }
        }
    }
}

} // verus!
