//! What holds of correction and of the movement targets on every map.

use vstd::prelude::*;
use crate::cursor::{
    any_related, at_level, first_related, gap, has_level, is_first_related, is_last_related,
    is_nearest_at, last_related, nearest, nearest_at, nearest_from, Relation,
};
use crate::path::{cursor_shaped, well_formed};

verus! {

/// Starting from any entry at a level, an entry nearest to `pos` is found
/// there: a closer one, or an equally close earlier one, can only be met
/// finitely often.
proof fn lemma_nearest_exists_from(paths: Seq<Seq<usize>>, pos: Seq<usize>, level: int, j: int) -> (r:
    int)
    requires
        0 <= j < paths.len(),
        at_level(paths[j], pos, level),
    ensures
        is_nearest_at(paths, pos, level, r),
    decreases gap(paths[j][level - 1], pos[level - 1]), j,
{
    if is_nearest_at(paths, pos, level, j) {
        j
    } else {
        let k = choose|k: int|
            0 <= k < paths.len() && at_level(#[trigger] paths[k], pos, level) && !({
                ||| gap(paths[j][level - 1], pos[level - 1]) < gap(
                    paths[k][level - 1],
                    pos[level - 1],
                )
                ||| (gap(paths[j][level - 1], pos[level - 1]) == gap(
                    paths[k][level - 1],
                    pos[level - 1],
                ) && j <= k)
            });
        lemma_nearest_exists_from(paths, pos, level, k)
    }
}

/// A level that has an entry beside `pos` has a nearest one, and the map
/// holds it.
pub proof fn lemma_nearest_at_in_map(paths: Seq<Seq<usize>>, pos: Seq<usize>, level: int)
    requires
        has_level(paths, pos, level),
    ensures
        paths.contains(nearest_at(paths, pos, level)),
        at_level(nearest_at(paths, pos, level), pos, level),
{
    let j = choose|j: int| 0 <= j < paths.len() && at_level(#[trigger] paths[j], pos, level);
    let r = lemma_nearest_exists_from(paths, pos, level, j);
    let c = choose|c: int| is_nearest_at(paths, pos, level, c);
    assert(is_nearest_at(paths, pos, level, c));
    assert(paths[c] == nearest_at(paths, pos, level));
}

/// A search that ends outside the map has found no entry on any level: it
/// ends at the first root item, and the map holds no path of one index and no
/// empty path.
proof fn lemma_search_outside_map(paths: Seq<Seq<usize>>, pos: Seq<usize>, level: nat)
    requires
        1 <= level <= pos.len(),
        !paths.contains(nearest_from(paths, pos, level)),
    ensures
        nearest_from(paths, pos, level) == seq![0usize],
        !has_level(paths, pos, 1),
        !paths.contains(pos.take(0)),
    decreases level,
{
    if has_level(paths, pos, level as int) {
        lemma_nearest_at_in_map(paths, pos, level as int);
    } else if paths.contains(pos.take(level - 1)) {
    } else if level > 1 {
        lemma_search_outside_map(paths, pos, (level - 1) as nat);
    } else {
        assert(nearest_from(paths, pos, 0) == seq![0usize]);
    }
}

/// Correction idempotence: correcting a corrected cursor changes nothing.
pub proof fn lemma_correction_idempotent(paths: Seq<Seq<usize>>, pos: Seq<usize>)
    requires
        pos.len() >= 1,
    ensures
        nearest(paths, nearest(paths, pos)) == nearest(paths, pos),
{
    let once = nearest(paths, pos);
    if !paths.contains(once) {
        lemma_search_outside_map(paths, pos, pos.len());
        assert(once == seq![0usize]);
        assert(once.take(0) =~= pos.take(0));
        assert(!has_level(paths, once, 1)) by {
            if has_level(paths, once, 1) {
                let j = choose|j: int| 0 <= j < paths.len() && at_level(#[trigger] paths[j], once, 1);
                assert(at_level(paths[j], pos, 1));
            }
        }
        assert(nearest_from(paths, once, 1) == nearest_from(paths, once, 0));
    }
}

/// In a non-empty map the search from any level of the cursor ends at an entry.
proof fn lemma_search_in_map(paths: Seq<Seq<usize>>, pos: Seq<usize>, level: nat)
    requires
        well_formed(paths),
        paths.len() > 0,
        1 <= level <= pos.len(),
    ensures
        paths.contains(nearest_from(paths, pos, level)),
    decreases level,
{
    if has_level(paths, pos, level as int) {
        lemma_nearest_at_in_map(paths, pos, level as int);
    } else if paths.contains(pos.take(level - 1)) {
    } else if level > 1 {
        lemma_search_in_map(paths, pos, (level - 1) as nat);
    } else {
        let root = paths[0].take(1);
        assert(paths.contains(root));
        let j = choose|j: int| 0 <= j < paths.len() && paths[j] == root;
        assert(paths[j].take(0) =~= pos.take(0));
        assert(at_level(paths[j], pos, 1));
    }
}

/// Correction termination: on a non-empty map correction ends at a position
/// that the map holds, and that has the shape of a cursor.
pub proof fn lemma_correction_valid(paths: Seq<Seq<usize>>, pos: Seq<usize>)
    requires
        well_formed(paths),
        paths.len() > 0,
        pos.len() >= 1,
    ensures
        paths.contains(nearest(paths, pos)),
        cursor_shaped(nearest(paths, pos)),
{
    if !paths.contains(pos) {
        lemma_search_in_map(paths, pos, pos.len());
    }
    lemma_entry_cursor_shaped(paths, nearest(paths, pos));
}

/// Every entry of a well-formed map has the shape of a cursor.
pub proof fn lemma_entry_cursor_shaped(paths: Seq<Seq<usize>>, q: Seq<usize>)
    requires
        well_formed(paths),
        paths.contains(q),
    ensures
        cursor_shaped(q),
{
    let j = choose|j: int| 0 <= j < paths.len() && paths[j] == q;
    assert forall|k: int| 0 <= k < q.len() implies #[trigger] q[k] < usize::MAX by {
        assert(paths[j][k] < usize::MAX);
    }
}

/// On any map correction ends at a position with the shape of a cursor.
pub proof fn lemma_correction_cursor_shaped(paths: Seq<Seq<usize>>, pos: Seq<usize>)
    requires
        well_formed(paths),
        cursor_shaped(pos),
    ensures
        cursor_shaped(nearest(paths, pos)),
{
    if paths.contains(nearest(paths, pos)) {
        lemma_entry_cursor_shaped(paths, nearest(paths, pos));
    } else if !paths.contains(pos) {
        lemma_search_outside_map(paths, pos, pos.len());
    }
}

/// A first or last related entry, where there is any related entry, is an
/// entry of the map in that relation.
pub proof fn lemma_related_in_map(paths: Seq<Seq<usize>>, pos: Seq<usize>, rel: Relation)
    requires
        any_related(paths, pos, rel),
    ensures
        paths.contains(first_related(paths, pos, rel)),
        rel.holds(first_related(paths, pos, rel), pos),
        paths.contains(last_related(paths, pos, rel)),
        rel.holds(last_related(paths, pos, rel), pos),
{
    let j = choose|j: int| 0 <= j < paths.len() && rel.holds(#[trigger] paths[j], pos);
    let f = lemma_first_from(paths, pos, rel, j);
    let c = choose|c: int| is_first_related(paths, pos, rel, c);
    assert(is_first_related(paths, pos, rel, c));
    let l = lemma_last_from(paths, pos, rel, j);
    let d = choose|d: int| is_last_related(paths, pos, rel, d);
    assert(is_last_related(paths, pos, rel, d));
}

proof fn lemma_first_from(paths: Seq<Seq<usize>>, pos: Seq<usize>, rel: Relation, j: int) -> (r: int)
    requires
        0 <= j < paths.len(),
        rel.holds(paths[j], pos),
    ensures
        is_first_related(paths, pos, rel, r),
    decreases j,
{
    if is_first_related(paths, pos, rel, j) {
        j
    } else {
        let k = choose|k: int| 0 <= k < j && rel.holds(#[trigger] paths[k], pos);
        lemma_first_from(paths, pos, rel, k)
    }
}

proof fn lemma_last_from(paths: Seq<Seq<usize>>, pos: Seq<usize>, rel: Relation, j: int) -> (r: int)
    requires
        0 <= j < paths.len(),
        rel.holds(paths[j], pos),
    ensures
        is_last_related(paths, pos, rel, r),
    decreases paths.len() - j,
{
    if is_last_related(paths, pos, rel, j) {
        j
    } else {
        let k = choose|k: int| j < k < paths.len() && rel.holds(#[trigger] paths[k], pos);
        lemma_last_from(paths, pos, rel, k)
    }
}

} // verus!
