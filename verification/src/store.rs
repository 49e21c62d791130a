//! A model of the application data directory, as far as the lifecycle
//! logic reads it: which paths hold a fully committed model artifact and
//! which hold a private staging file of an unfinished transfer.
//!
//! The process that owns the real file system mirrors every operation here
//! with the matching effect (create a staging file, rename it into place,
//! delete it), so the two never disagree about what a path holds. The
//! commit discipline — a transfer writes only to a staged path, and a
//! single rename publishes it — is what keeps a partially written file
//! from ever appearing under a final artifact name.

use vstd::prelude::*;

verus! {

/// The set of path views held in a vector of paths.
pub open spec fn path_set(v: Seq<String>) -> Set<Seq<char>> {
    Set::new(|p: Seq<char>| exists|i: int| 0 <= i < v.len() && #[trigger] v[i]@ == p)
}

/// No two entries of `v` read as the same path.
pub open spec fn distinct_paths(v: Seq<String>) -> bool {
    forall|i: int, j: int| 0 <= i < j < v.len() ==> #[trigger] v[i]@ != #[trigger] v[j]@
}

/// Finds the entry of `v` that reads as `p`, if any.
fn find_path(v: &Vec<String>, p: &String) -> (r: Option<usize>)
    ensures
        match r {
            Some(i) => i < v.len() && v@[i as int]@ == p@,
            None => forall|i: int| 0 <= i < v@.len() ==> #[trigger] v@[i]@ != p@,
        },
{
    let mut k: usize = 0;
    while k < v.len()
        invariant
            k <= v@.len(),
            forall|i: int| 0 <= i < k ==> #[trigger] v@[i]@ != p@,
        decreases v@.len() - k,
    {
        if v[k] == *p {
            return Some(k);
        }
        k = k + 1;
    }
    None
}

/// What the data directory holds: committed artifacts and staged
/// temporaries of unfinished transfers.
pub struct ArtifactStore {
    committed: Vec<String>,
    staged: Vec<String>,
}

impl ArtifactStore {
    /// The paths that hold a complete, committed artifact.
    pub closed spec fn committed_set(self) -> Set<Seq<char>> {
        path_set(self.committed@)
    }

    /// The paths that hold a staging file of an unfinished transfer.
    pub closed spec fn staged_set(self) -> Set<Seq<char>> {
        path_set(self.staged@)
    }

    /// Each path is listed at most once on either side.
    pub closed spec fn wf(self) -> bool {
        distinct_paths(self.committed@) && distinct_paths(self.staged@)
    }

    /// A directory that holds nothing.
    pub fn empty() -> (s: Self)
        ensures
            s.wf(),
            s.committed_set() =~= Set::<Seq<char>>::empty(),
            s.staged_set() =~= Set::<Seq<char>>::empty(),
    {
        ArtifactStore { committed: Vec::new(), staged: Vec::new() }
    }

    /// Whether `path` holds a committed artifact.
    pub fn is_committed(&self, path: &String) -> (r: bool)
        ensures
            r == self.committed_set().contains(path@),
    {
        match find_path(&self.committed, path) {
            Some(_) => true,
            None => false,
        }
    }

    /// Whether `path` holds a staging file.
    pub fn is_staged(&self, path: &String) -> (r: bool)
        ensures
            r == self.staged_set().contains(path@),
    {
        match find_path(&self.staged, path) {
            Some(_) => true,
            None => false,
        }
    }

    /// Records that `path` holds a complete artifact (a file found by an
    /// enumeration of the directory, or one just renamed into place).
    pub fn record(&mut self, path: String)
        requires
            old(self).wf(),
        ensures
            final(self).wf(),
            final(self).committed_set() =~= old(self).committed_set().insert(path@),
            final(self).staged_set() == old(self).staged_set(),
    {
        match find_path(&self.committed, &path) {
            Some(_) => {
                proof {
                    assert(self.committed_set().contains(path@));
                    assert(self.committed_set() =~= old(self).committed_set().insert(path@));
                }
            },
            None => {
                let ghost pre = self.committed@;
                self.committed.push(path);
                proof {
                    assert forall|q: Seq<char>|
                        self.committed_set().contains(q)
                            <==> old(self).committed_set().insert(path@).contains(q) by {
                        if self.committed_set().contains(q) {
                            let i = choose|i: int|
                                0 <= i < self.committed@.len() && #[trigger] self.committed@[i]@
                                    == q;
                            if i < pre.len() {
                                assert(pre[i]@ == q);
                            }
                        }
                        if old(self).committed_set().contains(q) {
                            let i = choose|i: int|
                                0 <= i < pre.len() && #[trigger] pre[i]@ == q;
                            assert(self.committed@[i]@ == q);
                        }
                        if q == path@ {
                            assert(self.committed@[pre.len() as int]@ == q);
                        }
                    }
                    assert forall|i: int, j: int|
                        0 <= i < j < self.committed@.len() implies #[trigger] self.committed@[i]@
                        != #[trigger] self.committed@[j]@ by {
                        if j < pre.len() {
                            assert(pre[i]@ != pre[j]@);
                        } else {
                            assert(pre[i]@ != path@);
                        }
                    }
                }
            },
        }
    }

    /// Opens a staging file at `path` for a new transfer.
    pub fn stage(&mut self, path: String)
        requires
            old(self).wf(),
            !old(self).staged_set().contains(path@),
        ensures
            final(self).wf(),
            final(self).staged_set() =~= old(self).staged_set().insert(path@),
            final(self).committed_set() == old(self).committed_set(),
    {
        let ghost pre = self.staged@;
        self.staged.push(path);
        proof {
            assert forall|q: Seq<char>|
                self.staged_set().contains(q) <==> old(self).staged_set().insert(
                    path@,
                ).contains(q) by {
                if self.staged_set().contains(q) {
                    let i = choose|i: int|
                        0 <= i < self.staged@.len() && #[trigger] self.staged@[i]@ == q;
                    if i < pre.len() {
                        assert(pre[i]@ == q);
                    }
                }
                if old(self).staged_set().contains(q) {
                    let i = choose|i: int| 0 <= i < pre.len() && #[trigger] pre[i]@ == q;
                    assert(self.staged@[i]@ == q);
                }
                if q == path@ {
                    assert(self.staged@[pre.len() as int]@ == q);
                }
            }
            assert forall|i: int, j: int|
                0 <= i < j < self.staged@.len() implies #[trigger] self.staged@[i]@
                != #[trigger] self.staged@[j]@ by {
                if j < pre.len() {
                    assert(pre[i]@ != pre[j]@);
                } else {
                    assert(pre[i]@ == self.staged@[i]@);
                    if self.staged@[i]@ == path@ {
                        assert(old(self).staged_set().contains(path@));
                    }
                }
            }
        }
    }

    /// Deletes the staging file at `path`, if one is open. The committed
    /// artifacts are untouched: an abandoned transfer leaves no trace
    /// under a final name.
    pub fn discard(&mut self, path: &String)
        requires
            old(self).wf(),
        ensures
            final(self).wf(),
            final(self).staged_set() =~= old(self).staged_set().remove(path@),
            final(self).committed_set() == old(self).committed_set(),
    {
        match find_path(&self.staged, path) {
            Some(i) => {
                let ghost pre = self.staged@;
                self.staged.swap_remove(i);
                proof {
                    let post = self.staged@;
                    assert(post.len() == pre.len() - 1);
                    assert forall|j: int|
                        0 <= j < post.len() implies #[trigger] post[j] == (if j == i {
                        pre[pre.len() - 1]
                    } else {
                        pre[j]
                    }) by {}
                    assert forall|q: Seq<char>|
                        self.staged_set().contains(q) <==> old(self).staged_set().remove(
                            path@,
                        ).contains(q) by {
                        if self.staged_set().contains(q) {
                            let j = choose|j: int| 0 <= j < post.len() && #[trigger] post[j]@ == q;
                            if j == i {
                                assert(pre[pre.len() - 1]@ == q);
                                assert(pre.len() - 1 != i);
                            } else {
                                assert(pre[j]@ == q);
                            }
                        }
                        if old(self).staged_set().remove(path@).contains(q) {
                            let m = choose|m: int| 0 <= m < pre.len() && #[trigger] pre[m]@ == q;
                            assert(m != i);
                            if m < pre.len() - 1 {
                                assert(post[m]@ == q);
                            } else {
                                assert(i < pre.len() - 1);
                                assert(post[i as int]@ == q);
                            }
                        }
                    }
                    assert forall|j: int, k: int|
                        0 <= j < k < post.len() implies #[trigger] post[j]@ != #[trigger] post[k]@
                        by {
                        assert(k != i ==> post[k] == pre[k]);
                    }
                }
            },
            None => {
                proof {
                    assert(!self.staged_set().contains(path@));
                    assert(self.staged_set() =~= old(self).staged_set().remove(path@));
                }
            },
        }
    }

    /// Publishes the staged transfer at `temp` as the committed artifact
    /// at `dest`: the single rename that makes a download visible.
    pub fn commit(&mut self, temp: &String, dest: String)
        requires
            old(self).wf(),
        ensures
            final(self).wf(),
            final(self).staged_set() =~= old(self).staged_set().remove(temp@),
            final(self).committed_set() =~= old(self).committed_set().insert(dest@),
    {
        self.discard(temp);
        self.record(dest);
    }
}

} // verus!
