//! Position paths: a node of the item tree is named by the sibling indices on
//! the way from the root list down to it.

use vstd::prelude::*;

verus! {

/// The paths held by a vector of paths, as a sequence of index sequences.
pub open spec fn views(paths: Seq<Vec<usize>>) -> Seq<Seq<usize>> {
    Seq::new(paths.len(), |i: int| paths[i]@)
}

/// What every map of positions satisfies: no path is empty, every non-empty
/// prefix of a path is in the map too, and every index leaves room for a
/// 1-based ordinal.
pub open spec fn well_formed(paths: Seq<Seq<usize>>) -> bool {
    &&& forall|i: int| 0 <= i < paths.len() ==> (#[trigger] paths[i]).len() >= 1
    &&& forall|i: int, m: int|
        0 <= i < paths.len() && 1 <= m <= paths[i].len() ==> paths.contains(
            #[trigger] paths[i].take(m),
        )
    &&& forall|i: int, k: int|
        0 <= i < paths.len() && 0 <= k < paths[i].len() ==> #[trigger] paths[i][k] < usize::MAX
}

/// A cursor that a navigator may hold: not empty, and every index leaves room
/// for a 1-based ordinal.
pub open spec fn cursor_shaped(pos: Seq<usize>) -> bool {
    &&& pos.len() >= 1
    &&& forall|k: int| 0 <= k < pos.len() ==> #[trigger] pos[k] < usize::MAX
}

/// `r` is the index of the first entry of `paths` equal to `target`, or the
/// length of `paths` when no entry is equal to it.
pub open spec fn is_rank(paths: Seq<Seq<usize>>, target: Seq<usize>, r: int) -> bool {
    &&& 0 <= r <= paths.len()
    &&& forall|k: int| 0 <= k < r ==> paths[k] != target
    &&& r < paths.len() ==> paths[r] == target
}

/// Absolute index of `target` within `paths`: the number of entries that come
/// before its first occurrence, all of them when it does not occur.
pub open spec fn rank_of(paths: Seq<Seq<usize>>, target: Seq<usize>) -> int {
    choose|r: int| is_rank(paths, target, r)
}

/// A sequence has exactly one rank for each target.
pub proof fn lemma_rank_unique(paths: Seq<Seq<usize>>, target: Seq<usize>, r: int)
    requires
        is_rank(paths, target, r),
    ensures
        rank_of(paths, target) == r,
{
    let c = rank_of(paths, target);
    assert(is_rank(paths, target, c));
    if c < r {
        assert(paths[c] != target);
    } else if r < c {
        assert(paths[r] != target);
    }
}

/// Whether two paths hold the same indices.
pub fn same_path(a: &Vec<usize>, b: &Vec<usize>) -> (same: bool)
    ensures
        same == (a@ == b@),
{
    if a.len() != b.len() {
        return false;
    }
    let mut i: usize = 0;
    while i < a.len()
        invariant
            a.len() == b.len(),
            i <= a.len(),
            forall|k: int| 0 <= k < i ==> a@[k] == b@[k],
        decreases a.len() - i,
    {
        if a[i] != b[i] {
            return false;
        }
        i = i + 1;
    }
    assert(a@ =~= b@);
    true
}

/// Absolute index of `target` within `paths`, found by a linear scan.
pub fn position_rank(paths: &Vec<Vec<usize>>, target: &Vec<usize>) -> (r: usize)
    ensures
        r == rank_of(views(paths@), target@),
        r <= paths.len(),
{
    let mut i: usize = 0;
    while i < paths.len()
        invariant
            i <= paths.len(),
            forall|k: int| 0 <= k < i ==> views(paths@)[k] != target@,
        decreases paths.len() - i,
    {
        if same_path(&paths[i], target) {
            proof {
                lemma_rank_unique(views(paths@), target@, i as int);
            }
            return i;
        }
        i = i + 1;
    }
    proof {
        lemma_rank_unique(views(paths@), target@, i as int);
    }
    i
}

} // verus!
