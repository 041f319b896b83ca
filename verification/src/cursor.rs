//! Where the cursor goes: the targets of the movement keys and the nearest
//! valid position for a cursor that the map no longer holds.

use vstd::prelude::*;
use crate::path::{same_path, views};

verus! {

/// How a map entry may stand to the cursor.
#[derive(Clone, Copy, Debug, PartialEq, Eq, Structural)]
pub enum Relation {
    /// Same parent, further down.
    Later,
    /// Same parent, further up.
    Earlier,
    /// One level deeper, directly below the cursor.
    Child,
    /// Same parent; the cursor itself counts.
    Sibling,
    /// Under the same root item; that root item counts.
    SameRoot,
}

/// `q` and `pos` are on one level and have the same parent.
pub open spec fn siblings(q: Seq<usize>, pos: Seq<usize>) -> bool {
    q.len() == pos.len() && q.len() >= 1 && q.drop_last() == pos.drop_last()
}

impl Relation {
    /// Whether the map entry `q` stands in this relation to the cursor `pos`.
    pub open spec fn holds(self, q: Seq<usize>, pos: Seq<usize>) -> bool {
        match self {
            Relation::Later => siblings(q, pos) && q.last() > pos.last(),
            Relation::Earlier => siblings(q, pos) && q.last() < pos.last(),
            Relation::Child => q.len() == pos.len() + 1 && q.drop_last() == pos,
            Relation::Sibling => siblings(q, pos),
            Relation::SameRoot => q.len() >= 1 && pos.len() >= 1 && q[0] == pos[0],
        }
    }
}

/// Some entry of `paths` stands in relation `rel` to `pos`.
pub open spec fn any_related(paths: Seq<Seq<usize>>, pos: Seq<usize>, rel: Relation) -> bool {
    exists|j: int| 0 <= j < paths.len() && rel.holds(#[trigger] paths[j], pos)
}

/// Entry `j` is the first of `paths` in relation `rel` to `pos`.
pub open spec fn is_first_related(
    paths: Seq<Seq<usize>>,
    pos: Seq<usize>,
    rel: Relation,
    j: int,
) -> bool {
    &&& 0 <= j < paths.len()
    &&& rel.holds(paths[j], pos)
    &&& forall|k: int| 0 <= k < j ==> !rel.holds(#[trigger] paths[k], pos)
}

/// Entry `j` is the last of `paths` in relation `rel` to `pos`.
pub open spec fn is_last_related(
    paths: Seq<Seq<usize>>,
    pos: Seq<usize>,
    rel: Relation,
    j: int,
) -> bool {
    &&& 0 <= j < paths.len()
    &&& rel.holds(paths[j], pos)
    &&& forall|k: int| j < k < paths.len() ==> !rel.holds(#[trigger] paths[k], pos)
}

/// The first entry of `paths` in relation `rel` to `pos`.
pub open spec fn first_related(paths: Seq<Seq<usize>>, pos: Seq<usize>, rel: Relation) -> Seq<
    usize,
> {
    paths[choose|j: int| is_first_related(paths, pos, rel, j)]
}

/// The last entry of `paths` in relation `rel` to `pos`.
pub open spec fn last_related(paths: Seq<Seq<usize>>, pos: Seq<usize>, rel: Relation) -> Seq<
    usize,
> {
    paths[choose|j: int| is_last_related(paths, pos, rel, j)]
}

/// There is one first related entry at most.
pub proof fn lemma_first_related_unique(
    paths: Seq<Seq<usize>>,
    pos: Seq<usize>,
    rel: Relation,
    j: int,
)
    requires
        is_first_related(paths, pos, rel, j),
    ensures
        first_related(paths, pos, rel) == paths[j],
        any_related(paths, pos, rel),
{
    let c = choose|c: int| is_first_related(paths, pos, rel, c);
    assert(is_first_related(paths, pos, rel, c));
    if c < j {
        assert(!rel.holds(paths[c], pos));
    } else if j < c {
        assert(!rel.holds(paths[j], pos));
    }
}

/// There is one last related entry at most.
pub proof fn lemma_last_related_unique(
    paths: Seq<Seq<usize>>,
    pos: Seq<usize>,
    rel: Relation,
    j: int,
)
    requires
        is_last_related(paths, pos, rel, j),
    ensures
        last_related(paths, pos, rel) == paths[j],
        any_related(paths, pos, rel),
{
    let c = choose|c: int| is_last_related(paths, pos, rel, c);
    assert(is_last_related(paths, pos, rel, c));
    if c < j {
        assert(!rel.holds(paths[j], pos));
    } else if j < c {
        assert(!rel.holds(paths[c], pos));
    }
}

/// Whether `a` and `b` hold the same first `n` indices.
pub fn agree_up_to(a: &Vec<usize>, b: &Vec<usize>, n: usize) -> (same: bool)
    requires
        n <= a.len(),
        n <= b.len(),
    ensures
        same == (a@.take(n as int) == b@.take(n as int)),
{
    let mut i: usize = 0;
    while i < n
        invariant
            i <= n,
            n <= a.len(),
            n <= b.len(),
            forall|k: int| 0 <= k < i ==> a@[k] == b@[k],
        decreases n - i,
    {
        if a[i] != b[i] {
            assert(a@.take(n as int)[i as int] != b@.take(n as int)[i as int]);
            return false;
        }
        i = i + 1;
    }
    assert(a@.take(n as int) =~= b@.take(n as int));
    true
}

/// Whether `q` and `pos` are on one level and have the same parent.
pub fn are_siblings(q: &Vec<usize>, pos: &Vec<usize>) -> (same: bool)
    ensures
        same == siblings(q@, pos@),
{
    if q.len() == pos.len() && q.len() >= 1 {
        let same = agree_up_to(q, pos, q.len() - 1);
        assert(q@.take(q.len() - 1) =~= q@.drop_last());
        assert(pos@.take(q.len() - 1) =~= pos@.drop_last());
        same
    } else {
        false
    }
}

/// Whether the map entry `q` stands in relation `rel` to the cursor `pos`.
pub fn is_related(rel: Relation, q: &Vec<usize>, pos: &Vec<usize>) -> (related: bool)
    ensures
        related == rel.holds(q@, pos@),
{
    match rel {
        Relation::Later => {
            if are_siblings(q, pos) {
                let r = q[q.len() - 1] > pos[pos.len() - 1];
                assert(r == Relation::Later.holds(q@, pos@));
                r
            } else {
                assert(!Relation::Later.holds(q@, pos@));
                false
            }
        },
        Relation::Earlier => {
            if are_siblings(q, pos) {
                let r = q[q.len() - 1] < pos[pos.len() - 1];
                assert(r == Relation::Earlier.holds(q@, pos@));
                r
            } else {
                assert(!Relation::Earlier.holds(q@, pos@));
                false
            }
        },
        Relation::Child => {
            if pos.len() < usize::MAX && q.len() == pos.len() + 1 {
                let same = agree_up_to(q, pos, pos.len());
                assert(pos@.take(pos.len() as int) =~= pos@);
                assert(q@.take(pos.len() as int) =~= q@.drop_last());
                assert(same == Relation::Child.holds(q@, pos@));
                same
            } else {
                assert(!Relation::Child.holds(q@, pos@));
                false
            }
        },
        Relation::Sibling => {
            let r = are_siblings(q, pos);
            assert(r == Relation::Sibling.holds(q@, pos@));
            r
        },
        Relation::SameRoot => {
            let r = q.len() >= 1 && pos.len() >= 1 && q[0] == pos[0];
            assert(r == Relation::SameRoot.holds(q@, pos@));
            r
        },
    }
}

/// Index of the first entry of `paths` in relation `rel` to `pos`.
pub fn first_related_index(paths: &Vec<Vec<usize>>, pos: &Vec<usize>, rel: Relation) -> (found:
    Option<usize>)
    ensures
        match found {
            Some(j) => is_first_related(views(paths@), pos@, rel, j as int),
            None => !any_related(views(paths@), pos@, rel),
        },
{
    let mut i: usize = 0;
    while i < paths.len()
        invariant
            i <= paths.len(),
            forall|k: int| 0 <= k < i ==> !rel.holds(#[trigger] views(paths@)[k], pos@),
        decreases paths.len() - i,
    {
        if is_related(rel, &paths[i], pos) {
            return Some(i);
        }
        i = i + 1;
    }
    None
}

/// Index of the last entry of `paths` in relation `rel` to `pos`.
pub fn last_related_index(paths: &Vec<Vec<usize>>, pos: &Vec<usize>, rel: Relation) -> (found:
    Option<usize>)
    ensures
        match found {
            Some(j) => is_last_related(views(paths@), pos@, rel, j as int),
            None => !any_related(views(paths@), pos@, rel),
        },
{
    let mut i: usize = paths.len();
    while i > 0
        invariant
            i <= paths.len(),
            forall|k: int| i <= k < paths.len() ==> !rel.holds(#[trigger] views(paths@)[k], pos@),
        decreases i,
    {
        i = i - 1;
        if is_related(rel, &paths[i], pos) {
            return Some(i);
        }
    }
    None
}

/// Distance between two sibling indices.
pub open spec fn gap(a: usize, b: usize) -> int {
    if a >= b {
        a - b
    } else {
        b - a
    }
}

/// `q` is `level` indices long and shares with `pos` all but the last of them.
pub open spec fn at_level(q: Seq<usize>, pos: Seq<usize>, level: int) -> bool {
    &&& 1 <= level <= pos.len()
    &&& q.len() == level
    &&& q.take(level - 1) == pos.take(level - 1)
}

/// Some entry of `paths` is at `level` beside `pos`.
pub open spec fn has_level(paths: Seq<Seq<usize>>, pos: Seq<usize>, level: int) -> bool {
    exists|j: int| 0 <= j < paths.len() && at_level(#[trigger] paths[j], pos, level)
}

/// Entry `j` is at `level` beside `pos`, no entry there has a last index closer
/// to that of `pos` at this level, and of those equally close it is the first.
pub open spec fn is_nearest_at(paths: Seq<Seq<usize>>, pos: Seq<usize>, level: int, j: int) -> bool {
    &&& 0 <= j < paths.len()
    &&& at_level(paths[j], pos, level)
    &&& forall|k: int|
        0 <= k < paths.len() && at_level(#[trigger] paths[k], pos, level) ==> {
            ||| gap(paths[j][level - 1], pos[level - 1]) < gap(paths[k][level - 1], pos[level - 1])
            ||| (gap(paths[j][level - 1], pos[level - 1]) == gap(
                paths[k][level - 1],
                pos[level - 1],
            ) && j <= k)
        }
}

/// The entry at `level` beside `pos` that is nearest to it.
pub open spec fn nearest_at(paths: Seq<Seq<usize>>, pos: Seq<usize>, level: int) -> Seq<usize> {
    paths[choose|j: int| is_nearest_at(paths, pos, level, j)]
}

/// The search for a nearest position from `level` upward: the nearest entry on
/// the deepest level that has one beside `pos`; an entry that is `pos` cut one
/// level shorter is taken when met first; the first root item when no level
/// has any.
pub open spec fn nearest_from(paths: Seq<Seq<usize>>, pos: Seq<usize>, level: nat) -> Seq<usize>
    decreases level,
{
    if level == 0 {
        seq![0usize]
    } else if has_level(paths, pos, level as int) {
        nearest_at(paths, pos, level as int)
    } else if paths.contains(pos.take(level - 1)) {
        pos.take(level - 1)
    } else {
        nearest_from(paths, pos, (level - 1) as nat)
    }
}

/// The position that correction gives a cursor at `pos`: `pos` itself when the
/// map holds it, else the nearest entry found from the level of `pos` upward.
pub open spec fn nearest(paths: Seq<Seq<usize>>, pos: Seq<usize>) -> Seq<usize> {
    if paths.contains(pos) {
        pos
    } else {
        nearest_from(paths, pos, pos.len())
    }
}

/// There is one nearest entry at most on a level.
pub proof fn lemma_nearest_at_unique(paths: Seq<Seq<usize>>, pos: Seq<usize>, level: int, j: int)
    requires
        is_nearest_at(paths, pos, level, j),
    ensures
        nearest_at(paths, pos, level) == paths[j],
        has_level(paths, pos, level),
{
    let c = choose|c: int| is_nearest_at(paths, pos, level, c);
    assert(is_nearest_at(paths, pos, level, c));
    assert(at_level(paths[c], pos, level));
    assert(at_level(paths[j], pos, level));
}

/// Distance between two sibling indices.
pub fn index_gap(a: usize, b: usize) -> (d: usize)
    ensures
        d == gap(a, b),
{
    if a >= b {
        a - b
    } else {
        b - a
    }
}

/// Index of the entry of `paths` at `level` that is nearest to `pos`.
pub fn nearest_index_at(paths: &Vec<Vec<usize>>, pos: &Vec<usize>, level: usize) -> (found: Option<
    usize,
>)
    requires
        1 <= level <= pos.len(),
    ensures
        match found {
            Some(j) => is_nearest_at(views(paths@), pos@, level as int, j as int),
            None => !has_level(views(paths@), pos@, level as int),
        },
{
    let wanted: usize = pos[level - 1];
    let mut best: Option<usize> = None;
    let mut best_gap: usize = 0;
    let mut i: usize = 0;
    while i < paths.len()
        invariant
            i <= paths.len(),
            1 <= level <= pos.len(),
            wanted == pos@[level - 1],
            match best {
                Some(j) => {
                    &&& j < i
                    &&& at_level(views(paths@)[j as int], pos@, level as int)
                    &&& best_gap == gap(views(paths@)[j as int][level - 1], wanted)
                    &&& forall|k: int|
                        0 <= k < i && at_level(#[trigger] views(paths@)[k], pos@, level as int)
                            ==> {
                            ||| best_gap < gap(views(paths@)[k][level - 1], wanted)
                            ||| (best_gap == gap(views(paths@)[k][level - 1], wanted) && j <= k)
                        }
                },
                None => forall|k: int|
                    0 <= k < i ==> !at_level(#[trigger] views(paths@)[k], pos@, level as int),
            },
        decreases paths.len() - i,
    {
        let q = &paths[i];
        if q.len() == level && agree_up_to(q, pos, level - 1) {
            let d: usize = index_gap(q[level - 1], wanted);
            let closer: bool = match best {
                Some(_) => d < best_gap,
                None => true,
            };
            if closer {
                best = Some(i);
                best_gap = d;
            }
        }
        i = i + 1;
    }
    best
}

/// Index of the first entry of `paths` equal to the first `n` indices of `pos`.
pub fn prefix_index(paths: &Vec<Vec<usize>>, pos: &Vec<usize>, n: usize) -> (found: Option<usize>)
    requires
        n <= pos.len(),
    ensures
        match found {
            Some(j) => j < paths.len() && views(paths@)[j as int] == pos@.take(n as int),
            None => !views(paths@).contains(pos@.take(n as int)),
        },
{
    let mut i: usize = 0;
    while i < paths.len()
        invariant
            i <= paths.len(),
            n <= pos.len(),
            forall|k: int| 0 <= k < i ==> views(paths@)[k] != pos@.take(n as int),
        decreases paths.len() - i,
    {
        let q = &paths[i];
        if q.len() == n && agree_up_to(q, pos, n) {
            assert(q@.take(n as int) =~= q@);
            return Some(i);
        }
        proof {
            if q.len() == n {
                assert(q@.take(n as int) =~= q@);
            }
        }
        i = i + 1;
    }
    None
}

/// Index of the first entry of `paths` equal to `pos`.
pub fn path_index(paths: &Vec<Vec<usize>>, pos: &Vec<usize>) -> (found: Option<usize>)
    ensures
        match found {
            Some(j) => j < paths.len() && views(paths@)[j as int] == pos@,
            None => !views(paths@).contains(pos@),
        },
{
    let mut i: usize = 0;
    while i < paths.len()
        invariant
            i <= paths.len(),
            forall|k: int| 0 <= k < i ==> views(paths@)[k] != pos@,
        decreases paths.len() - i,
    {
        if same_path(&paths[i], pos) {
            return Some(i);
        }
        i = i + 1;
    }
    None
}

} // verus!
