//! The item tree and the enumeration of its reachable positions.

use vstd::prelude::*;
use crate::path::views;

verus! {

/// Whether an item is a task with a status or a plain note.
#[derive(Clone, Copy, Debug, PartialEq, Eq, Structural)]
pub enum ItemType {
    Todo,
    Note,
}

/// Progress of a task.
#[derive(Clone, Copy, Debug, PartialEq, Eq, Structural)]
pub enum ItemStatus {
    Complete,
    Incomplete,
    Disabled,
}

/// A node of the list: its text, kind, status and visibility, and the ordered
/// list of its children.
#[derive(Debug, PartialEq, Eq)]
pub struct Item {
    pub text: String,
    pub item_type: ItemType,
    pub status: ItemStatus,
    pub hidden: bool,
    pub sub_items: Vec<Item>,
}

/// Whether a node with this hidden flag is shown under the visibility flag.
pub open spec fn shown(hidden: bool, display_hidden: bool) -> bool {
    display_hidden || !hidden
}

/// Positions contributed by one node at `path`: the node itself, then its
/// children in order, or nothing at all when the node is not shown.
pub open spec fn subtree_paths(item: Item, path: Seq<usize>, display_hidden: bool) -> Seq<
    Seq<usize>,
>
    decreases item,
{
    if shown(item.hidden, display_hidden) {
        seq![path] + forest_paths(item.sub_items@, path, display_hidden)
    } else {
        Seq::empty()
    }
}

/// Positions of a list of siblings whose parent is at `prefix`, in depth-first,
/// sibling-ascending order.
pub open spec fn forest_paths(items: Seq<Item>, prefix: Seq<usize>, display_hidden: bool) -> Seq<
    Seq<usize>,
>
    decreases items,
{
    if items.len() == 0 {
        Seq::empty()
    } else {
        forest_paths(items.drop_last(), prefix, display_hidden) + subtree_paths(
            items.last(),
            prefix.push((items.len() - 1) as usize),
            display_hidden,
        )
    }
}

/// All positions of the tree that the cursor may take.
pub open spec fn valid_paths(items: Seq<Item>, display_hidden: bool) -> Seq<Seq<usize>> {
    forest_paths(items, Seq::empty(), display_hidden)
}

/// Appends to `the_map` the positions of `items`, whose parent is at
/// `sub_positions`.
pub fn walk_items(
    the_map: &mut Vec<Vec<usize>>,
    sub_positions: &mut Vec<usize>,
    items: &Vec<Item>,
    display_hidden: bool,
)
    ensures
        views(final(the_map)@) == views(old(the_map)@) + forest_paths(
            items@,
            old(sub_positions)@,
            display_hidden,
        ),
        final(sub_positions)@ == old(sub_positions)@,
    decreases items,
{
    let mut moment: usize = 0;
    while moment < items.len()
        invariant
            moment <= items.len(),
            sub_positions@ == old(sub_positions)@,
            views(the_map@) == views(old(the_map)@) + forest_paths(
                items@.take(moment as int),
                old(sub_positions)@,
                display_hidden,
            ),
        decreases items.len() - moment,
    {
        let item = &items[moment];
        let ghost before = views(the_map@);
        let ghost done = items@.take(moment as int);
        let ghost next = items@.take(moment + 1);
        proof {
            assert(next.drop_last() == done);
            assert(next.last() == items@[moment as int]);
        }
        sub_positions.push(moment);
        if display_hidden || !item.hidden {
            let here = sub_positions.clone();
            the_map.push(here);
            assert(views(the_map@) == before + seq![sub_positions@]);
            walk_items(the_map, sub_positions, &item.sub_items, display_hidden);
        }
        proof {
            let prefix = old(sub_positions)@;
            let added = subtree_paths(items@[moment as int], sub_positions@, display_hidden);
            assert(sub_positions@ == prefix.push(moment));
            assert(forest_paths(next, prefix, display_hidden) == forest_paths(
                done,
                prefix,
                display_hidden,
            ) + added);
            assert(views(the_map@) =~= before + added);
            assert(views(the_map@) =~= views(old(the_map)@) + forest_paths(
                next,
                prefix,
                display_hidden,
            ));
        }
        sub_positions.pop();
        assert(sub_positions@ == old(sub_positions)@);
        moment = moment + 1;
    }
    assert(items@.take(items.len() as int) == items@);
}

/// The positions of `items` that the cursor may take, in rendering order.
pub fn enumerate_items(items: &Vec<Item>, display_hidden: bool) -> (the_map: Vec<Vec<usize>>)
    ensures
        views(the_map@) == valid_paths(items@, display_hidden),
{
    let mut the_map: Vec<Vec<usize>> = Vec::new();
    let mut sub_positions: Vec<usize> = Vec::new();
    walk_items(&mut the_map, &mut sub_positions, items, display_hidden);
    assert(views(the_map@) == Seq::<Seq<usize>>::empty() + valid_paths(items@, display_hidden));
    the_map
}

} // verus!
