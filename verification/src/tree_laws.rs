//! What holds of every enumeration of a tree: it lists exactly the reachable
//! nodes, in depth-first order, and never a node below a hidden one.

use vstd::prelude::*;
use crate::path::well_formed;
use crate::tree::{forest_paths, shown, subtree_paths, valid_paths, Item};

verus! {

/// The node that `path` names, when the tree has one there.
pub open spec fn node_at(items: Seq<Item>, path: Seq<usize>) -> Option<Item>
    decreases path.len(),
{
    if path.len() == 0 || path[0] >= items.len() {
        None
    } else if path.len() == 1 {
        Some(items[path[0] as int])
    } else {
        node_at(items[path[0] as int].sub_items@, path.drop_first())
    }
}

/// `path` names an existing node, and that node and each of its ancestors is
/// shown under the visibility flag.
pub open spec fn reachable(items: Seq<Item>, path: Seq<usize>, display_hidden: bool) -> bool
    decreases path.len(),
{
    &&& path.len() >= 1
    &&& path[0] < items.len()
    &&& shown(items[path[0] as int].hidden, display_hidden)
    &&& (path.len() == 1 || reachable(
        items[path[0] as int].sub_items@,
        path.drop_first(),
        display_hidden,
    ))
}

/// `a` and `b` agree on their first `k` indices, and there `a` ends while `b`
/// goes on, or `a` turns to an earlier sibling than `b`.
pub open spec fn parts_before(a: Seq<usize>, b: Seq<usize>, k: int) -> bool {
    &&& 0 <= k <= a.len()
    &&& k < b.len()
    &&& a.take(k) == b.take(k)
    &&& (k < a.len() ==> a[k] < b[k])
}

/// `a` is met before `b` on a depth-first, sibling-ascending walk: a node
/// comes before its descendants, and before its later siblings and theirs.
pub open spec fn precedes(a: Seq<usize>, b: Seq<usize>) -> bool {
    exists|k: int| parts_before(a, b, k)
}

/// `q` lies strictly below `prefix`, and what is left of it after `prefix` is
/// reachable among `items`.
pub open spec fn reachable_below(
    items: Seq<Item>,
    prefix: Seq<usize>,
    display_hidden: bool,
    q: Seq<usize>,
) -> bool {
    &&& q.len() > prefix.len()
    &&& q.take(prefix.len() as int) == prefix
    &&& reachable(items, q.skip(prefix.len() as int), display_hidden)
}

proof fn lemma_concat_contains(a: Seq<Seq<usize>>, b: Seq<Seq<usize>>, q: Seq<usize>)
    ensures
        (a + b).contains(q) <==> a.contains(q) || b.contains(q),
{
    if a.contains(q) {
        let i = choose|i: int| 0 <= i < a.len() && a[i] == q;
        assert((a + b)[i] == q);
    }
    if b.contains(q) {
        let i = choose|i: int| 0 <= i < b.len() && b[i] == q;
        assert((a + b)[a.len() + i] == q);
    }
    if (a + b).contains(q) {
        let i = choose|i: int| 0 <= i < (a + b).len() && (a + b)[i] == q;
        if i < a.len() {
            assert(a[i] == q);
        } else {
            assert(b[i - a.len()] == q);
        }
    }
}

/// The positions of a list of siblings are exactly the paths below the parent
/// that are reachable among them.
pub proof fn lemma_forest_paths_members(
    items: Seq<Item>,
    prefix: Seq<usize>,
    display_hidden: bool,
    q: Seq<usize>,
)
    requires
        items.len() <= usize::MAX,
    ensures
        forest_paths(items, prefix, display_hidden).contains(q) <==> reachable_below(
            items,
            prefix,
            display_hidden,
            q,
        ),
    decreases items,
{
    let k = prefix.len() as int;
    if items.len() == 0 {
        assert(!forest_paths(items, prefix, display_hidden).contains(q));
    } else {
        let n = items.len() as int;
        let init = items.drop_last();
        let last = items.last();
        let here = prefix.push((n - 1) as usize);
        let a = forest_paths(init, prefix, display_hidden);
        let b = subtree_paths(last, here, display_hidden);
        lemma_concat_contains(a, b, q);
        lemma_forest_paths_members(init, prefix, display_hidden, q);
        let s = q.skip(k);
        // earlier siblings
        if q.len() > k && q.take(k) == prefix {
            if s[0] < n - 1 {
                assert(init[s[0] as int] == items[s[0] as int]);
            }
            assert(reachable(init, s, display_hidden) <==> (reachable(items, s, display_hidden)
                && s[0] < n - 1));
        }
        // the last sibling and what is below it
        if shown(last.hidden, display_hidden) {
            let c = forest_paths(last.sub_items@, here, display_hidden);
            assert(last.sub_items@.len() == last.sub_items.len());
            lemma_concat_contains(seq![here], c, q);
            lemma_forest_paths_members(last.sub_items@, here, display_hidden, q);
            assert(seq![here].contains(q) <==> q == here) by {
                if q == here {
                    assert(seq![here][0] == q);
                }
            }
            if q == here {
                assert(q.take(k) =~= prefix);
                assert(s =~= seq![(n - 1) as usize]);
                assert(reachable(items, s, display_hidden));
            }
            if q.len() > k && q.take(k) == prefix && s[0] == n - 1 {
                assert(q[k] == s[0]);
                if s.len() == 1 {
                    assert(q =~= here);
                } else {
                    assert(q.take(k + 1) =~= here);
                    assert(q.skip(k + 1) =~= s.drop_first());
                }
            }
            if q.len() > k + 1 && q.take(k + 1) == here {
                assert(q.take(k) =~= prefix) by {
                    assert(q.take(k) =~= q.take(k + 1).take(k));
                }
                assert(q[k] == q.take(k + 1)[k]);
                assert(q.skip(k + 1) =~= s.drop_first());
            }
        } else {
            assert(!b.contains(q));
        }
    }
}

/// The positions of a list of siblings come in depth-first order: each is met
/// before every later one.
pub proof fn lemma_forest_paths_ordered(items: Seq<Item>, prefix: Seq<usize>, display_hidden: bool)
    requires
        items.len() <= usize::MAX,
    ensures
        forall|i: int, j: int|
            0 <= i < j < forest_paths(items, prefix, display_hidden).len() ==> precedes(
                #[trigger] forest_paths(items, prefix, display_hidden)[i],
                #[trigger] forest_paths(items, prefix, display_hidden)[j],
            ),
    decreases items,
{
    let all = forest_paths(items, prefix, display_hidden);
    let k = prefix.len() as int;
    if items.len() > 0 {
        let n = items.len() as int;
        let init = items.drop_last();
        let last = items.last();
        let here = prefix.push((n - 1) as usize);
        let a = forest_paths(init, prefix, display_hidden);
        let b = subtree_paths(last, here, display_hidden);
        let c = forest_paths(last.sub_items@, here, display_hidden);
        assert(last.sub_items@.len() == last.sub_items.len());
        lemma_forest_paths_ordered(init, prefix, display_hidden);
        lemma_forest_paths_ordered(last.sub_items@, here, display_hidden);
        assert forall|i: int, j: int| 0 <= i < j < all.len() implies precedes(
            #[trigger] all[i],
            #[trigger] all[j],
        ) by {
            if j < a.len() {
                assert(all[i] == a[i] && all[j] == a[j]);
            } else {
                let j2 = j - a.len();
                assert(all[j] == b[j2]);
                assert(b == seq![here] + c);
                // every entry of `b` starts with `here`
                if j2 > 0 {
                    assert(b[j2] == c[j2 - 1]);
                    assert(c.contains(c[j2 - 1]));
                    lemma_forest_paths_members(last.sub_items@, here, display_hidden, c[j2 - 1]);
                    assert(b[j2].take(k) =~= b[j2].take(k + 1).take(k));
                    assert(b[j2][k] == b[j2].take(k + 1)[k]);
                } else {
                    assert(b[j2] == here);
                }
                assert(b[j2].take(k) =~= prefix);
                assert(b[j2][k] == n - 1);
                if i >= a.len() {
                    let i2 = i - a.len();
                    assert(all[i] == b[i2]);
                    if i2 == 0 {
                        assert(b[i2] == here);
                        assert(here.take(k + 1) =~= here);
                        assert(b[j2].take(k + 1) == here);
                        assert(parts_before(here, b[j2], k + 1));
                    } else {
                        assert(b[i2] == c[i2 - 1]);
                    }
                } else {
                    assert(all[i] == a[i]);
                    assert(a.contains(a[i]));
                    lemma_forest_paths_members(init, prefix, display_hidden, a[i]);
                    assert(a[i][k] == a[i].skip(k)[0]);
                    assert(parts_before(a[i], b[j2], k));
                }
            }
        }
    }
}

/// A reachable path is not empty, its indices leave room for a 1-based
/// ordinal, and each of its non-empty prefixes is reachable too.
pub proof fn lemma_reachable_prefixes(items: Seq<Item>, path: Seq<usize>, display_hidden: bool)
    requires
        items.len() <= usize::MAX,
        reachable(items, path, display_hidden),
    ensures
        path.len() >= 1,
        forall|k: int| 0 <= k < path.len() ==> #[trigger] path[k] < usize::MAX,
        forall|m: int|
            1 <= m <= path.len() ==> reachable(items, #[trigger] path.take(m), display_hidden),
    decreases path.len(),
{
    let children = items[path[0] as int].sub_items;
    assert(children@.len() == children.len());
    if path.len() > 1 {
        let rest = path.drop_first();
        lemma_reachable_prefixes(children@, rest, display_hidden);
        assert forall|k: int| 0 <= k < path.len() implies #[trigger] path[k] < usize::MAX by {
            if k > 0 {
                assert(path[k] == rest[k - 1]);
            }
        }
        assert forall|m: int| 1 <= m <= path.len() implies reachable(
            items,
            #[trigger] path.take(m),
            display_hidden,
        ) by {
            let head = path.take(m);
            assert(head[0] == path[0]);
            if m > 1 {
                assert(head.drop_first() =~= rest.take(m - 1));
            }
        }
    } else {
        assert forall|m: int| 1 <= m <= path.len() implies reachable(
            items,
            #[trigger] path.take(m),
            display_hidden,
        ) by {
            assert(path.take(m) =~= path);
        }
    }
}

/// With hidden nodes not displayed, a path that passes through a node is
/// reachable only if that node is not hidden.
pub proof fn lemma_reachable_through_shown(items: Seq<Item>, node: Seq<usize>, q: Seq<usize>)
    requires
        reachable(items, q, false),
        node.len() >= 1,
        node.is_prefix_of(q),
    ensures
        node_at(items, node) matches Some(item) && !item.hidden,
    decreases node.len(),
{
    assert(node[0] == q[0]);
    if node.len() > 1 {
        let below = items[q[0] as int].sub_items@;
        assert(node.drop_first().is_prefix_of(q.drop_first())) by {
            assert(node.drop_first() =~= q.drop_first().subrange(0, node.len() - 1));
        }
        lemma_reachable_through_shown(below, node.drop_first(), q.drop_first());
    }
}

/// Enumeration completeness: for every tree and visibility flag, the map lists
/// exactly the nodes that are shown together with all of their ancestors (all
/// nodes when hidden ones are displayed), each once, in depth-first order.
pub proof fn lemma_enumeration_complete(items: Vec<Item>, display_hidden: bool)
    ensures
        forall|q: Seq<usize>| #[trigger]
            valid_paths(items@, display_hidden).contains(q) <==> reachable(
                items@,
                q,
                display_hidden,
            ),
        forall|i: int, j: int|
            0 <= i < j < valid_paths(items@, display_hidden).len() ==> precedes(
                #[trigger] valid_paths(items@, display_hidden)[i],
                #[trigger] valid_paths(items@, display_hidden)[j],
            ),
{
    assert(items@.len() == items.len());
    lemma_forest_paths_ordered(items@, Seq::empty(), display_hidden);
    assert forall|q: Seq<usize>| #[trigger]
        valid_paths(items@, display_hidden).contains(q) <==> reachable(
            items@,
            q,
            display_hidden,
        ) by {
        lemma_forest_paths_members(items@, Seq::empty(), display_hidden, q);
        assert(q.skip(0) =~= q);
        assert(q.take(0) =~= Seq::<usize>::empty());
    }
}

/// Hidden-subtree exclusion: while hidden nodes are not displayed, the map
/// holds neither a hidden node nor anything below one, whatever the hidden
/// flags of the nodes below it say.
pub proof fn lemma_hidden_subtree_excluded(items: Vec<Item>, node: Seq<usize>, q: Seq<usize>)
    requires
        node_at(items@, node) matches Some(item) && item.hidden,
        node.is_prefix_of(q),
    ensures
        !valid_paths(items@, false).contains(q),
{
    lemma_enumeration_complete(items, false);
    if reachable(items@, q, false) {
        lemma_reachable_through_shown(items@, node, q);
    }
}

/// Every enumeration is a well-formed map: its paths are not empty, it holds
/// each non-empty prefix of each of its paths, and its indices leave room for
/// a 1-based ordinal.
pub proof fn lemma_enumeration_well_formed(items: Vec<Item>, display_hidden: bool)
    ensures
        well_formed(valid_paths(items@, display_hidden)),
{
    let paths = valid_paths(items@, display_hidden);
    assert(items@.len() == items.len());
    lemma_enumeration_complete(items, display_hidden);
    assert forall|i: int| 0 <= i < paths.len() implies {
        &&& (#[trigger] paths[i]).len() >= 1
        &&& forall|m: int| 1 <= m <= paths[i].len() ==> paths.contains(#[trigger] paths[i].take(m))
        &&& forall|k: int| 0 <= k < paths[i].len() ==> #[trigger] paths[i][k] < usize::MAX
    } by {
        assert(paths.contains(paths[i]));
        lemma_reachable_prefixes(items@, paths[i], display_hidden);
    }
}

} // verus!
