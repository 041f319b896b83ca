use todo_tui::nav::{NavigateMap, Navigator};
use todo_tui::tree::{enumerate_items, walk_items, Item, ItemStatus, ItemType};

fn leaf(text: &str, hidden: bool) -> Item {
    Item {
        text: text.to_string(),
        item_type: ItemType::Todo,
        status: ItemStatus::Incomplete,
        hidden,
        sub_items: Vec::new(),
    }
}

fn node(text: &str, hidden: bool, sub_items: Vec<Item>) -> Item {
    Item {
        text: text.to_string(),
        item_type: ItemType::Note,
        status: ItemStatus::Incomplete,
        hidden,
        sub_items,
    }
}

#[test]
fn empty_tree_has_no_positions() {
    assert!(enumerate_items(&Vec::new(), false).is_empty());
    assert!(enumerate_items(&Vec::new(), true).is_empty());
}

#[test]
fn enumeration_is_pre_order() {
    let items = vec![
        node("a", false, vec![leaf("a0", false), node("a1", false, vec![leaf("a10", false)])]),
        leaf("b", false),
        node("c", false, vec![leaf("c0", false)]),
    ];
    let expected: Vec<Vec<usize>> = vec![
        vec![0],
        vec![0, 0],
        vec![0, 1],
        vec![0, 1, 0],
        vec![1],
        vec![2],
        vec![2, 0],
    ];
    assert_eq!(enumerate_items(&items, false), expected);
    assert_eq!(enumerate_items(&items, true), expected);
}

#[test]
fn hidden_root_item_is_left_out() {
    let items = vec![leaf("a", false), leaf("b", true)];
    assert_eq!(enumerate_items(&items, false), vec![vec![0usize]]);
    assert_eq!(enumerate_items(&items, true), vec![vec![0usize], vec![1usize]]);
}

#[test]
fn hidden_subtree_is_left_out_whole() {
    let items = vec![
        node("a", true, vec![leaf("a0", false), leaf("a1", false)]),
        node("b", false, vec![leaf("b0", true), node("b1", false, vec![leaf("b10", false)])]),
    ];
    let shown: Vec<Vec<usize>> = vec![vec![1], vec![1, 1], vec![1, 1, 0]];
    assert_eq!(enumerate_items(&items, false), shown);
    let all: Vec<Vec<usize>> = vec![
        vec![0],
        vec![0, 0],
        vec![0, 1],
        vec![1],
        vec![1, 0],
        vec![1, 1],
        vec![1, 1, 0],
    ];
    assert_eq!(enumerate_items(&items, true), all);
}

#[test]
fn every_prefix_of_a_position_is_a_position() {
    let items = vec![
        node("a", false, vec![node("a0", false, vec![leaf("a00", false), leaf("a01", true)])]),
        leaf("b", false),
    ];
    let map = enumerate_items(&items, false);
    for path in map.iter() {
        assert!(!path.is_empty());
        for m in 1..=path.len() {
            assert!(map.contains(&path[..m].to_vec()));
        }
    }
    let mut sorted = map.clone();
    sorted.sort();
    sorted.dedup();
    assert_eq!(sorted, map);
}

#[test]
fn walk_appends_below_the_given_parent() {
    let items = vec![leaf("x", false), node("y", false, vec![leaf("y0", false)])];
    let mut the_map: Vec<Vec<usize>> = vec![vec![9]];
    let mut parent: Vec<usize> = vec![3, 1];
    walk_items(&mut the_map, &mut parent, &items, false);
    assert_eq!(parent, vec![3, 1]);
    let expected: Vec<Vec<usize>> = vec![vec![9], vec![3, 1, 0], vec![3, 1, 1], vec![3, 1, 1, 0]];
    assert_eq!(the_map, expected);
}

#[test]
fn trait_functions_build_the_same_map() {
    let items = vec![leaf("a", false), node("b", false, vec![leaf("c", false), leaf("d", true)])];
    let by_trait = <Navigator as NavigateMap>::from_items(&items, false);
    assert_eq!(by_trait, enumerate_items(&items, false));
    assert_eq!(by_trait, vec![vec![0], vec![1], vec![1, 0]]);
    let mut the_map: Vec<Vec<usize>> = Vec::new();
    let mut parent: Vec<usize> = Vec::new();
    <Navigator as NavigateMap>::through_items(&mut the_map, &mut parent, &items, true);
    assert_eq!(the_map, vec![vec![0], vec![1], vec![1, 0], vec![1, 1]]);
}
