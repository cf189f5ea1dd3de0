use keyglance::focus::{
    find_text_input_in_children, frontmost_pid, get_focused_element, get_focused_text_input_rect, SEARCH_DEPTH,
};
use std::cell::Cell;

struct Node {
    input: bool,
    rect: Option<u32>,
    children: Option<Vec<Option<usize>>>,
}

fn leaf(input: bool, rect: Option<u32>) -> Node {
    Node { input, rect, children: Some(vec![]) }
}

fn inner(children: Vec<Option<usize>>) -> Node {
    Node { input: false, rect: None, children: Some(children) }
}

fn search(tree: &[Node], el: usize, depth: u32, max_depth: u32, released: &Cell<usize>) -> Option<u32> {
    find_text_input_in_children(
        el,
        depth,
        max_depth,
        |h: usize| tree[h].children.as_ref().map(|_| h),
        |a: usize| tree[a].children.as_ref().unwrap().len() as i64,
        |a: usize, i: i64| tree[a].children.as_ref().unwrap()[i as usize],
        |h: usize| tree[h].input,
        |h: usize| tree[h].rect,
        |_a: usize| released.set(released.get() + 1),
    )
}

#[test]
fn first_input_in_depth_first_order() {
    // 0 -> [1, 2]; 1 -> [3]; 3 is an input with rect 30; 2 is an input with rect 20
    let tree = vec![
        inner(vec![Some(1), Some(2)]),
        inner(vec![Some(3)]),
        leaf(true, Some(20)),
        leaf(true, Some(30)),
    ];
    let released = Cell::new(0);
    assert_eq!(search(&tree, 0, 0, SEARCH_DEPTH, &released), Some(30));
    // the lists of 0 and 1 were read and released; 3 was found before its own
    assert_eq!(released.get(), 2);
}

#[test]
fn inputs_without_rectangles_are_searched_below() {
    let tree = vec![inner(vec![Some(1)]), Node { input: true, rect: None, children: Some(vec![Some(2)]) }, leaf(true, Some(7))];
    let released = Cell::new(0);
    assert_eq!(search(&tree, 0, 0, SEARCH_DEPTH, &released), Some(7));
}

#[test]
fn search_stops_at_the_depth_limit() {
    // chain 0 -> 1 -> 2 -> 3 -> 4, only 4 is an input
    let tree = vec![
        inner(vec![Some(1)]),
        inner(vec![Some(2)]),
        inner(vec![Some(3)]),
        inner(vec![Some(4)]),
        leaf(true, Some(44)),
    ];
    let released = Cell::new(0);
    assert_eq!(search(&tree, 0, 0, 3, &released), None);
    assert_eq!(released.get(), 3);
    assert_eq!(search(&tree, 0, 0, 4, &released), Some(44));
    assert_eq!(search(&tree, 0, 5, 4, &released), None);
}

#[test]
fn only_twenty_children_are_looked_at() {
    let mut children: Vec<Option<usize>> = (1..=21).map(Some).collect();
    children.push(None);
    let mut tree = vec![inner(children)];
    for k in 1..=21 {
        tree.push(leaf(k == 21, Some(k as u32)));
    }
    let released = Cell::new(0);
    assert_eq!(search(&tree, 0, 0, 3, &released), None);
    tree[20].input = true;
    assert_eq!(search(&tree, 0, 0, 3, &released), Some(20));
}

#[test]
fn unreadable_entries_and_children_are_skipped() {
    let tree = vec![
        inner(vec![None, Some(1), Some(2)]),
        Node { input: false, rect: None, children: None },
        leaf(true, Some(5)),
    ];
    let released = Cell::new(0);
    assert_eq!(search(&tree, 0, 0, 3, &released), Some(5));
    assert_eq!(search(&tree, 1, 0, 3, &released), None);
}

fn focused_rect(tree: &[Node], focused: Option<usize>, released: &Cell<usize>) -> Option<u32> {
    get_focused_text_input_rect(
        focused,
        |h: usize| tree[h].children.as_ref().map(|_| h),
        |a: usize| tree[a].children.as_ref().unwrap().len() as i64,
        |a: usize, i: i64| tree[a].children.as_ref().unwrap()[i as usize],
        |h: usize| tree[h].input,
        |h: usize| tree[h].rect,
        |_a: usize| (),
        |_h: usize| released.set(released.get() + 1),
    )
}

#[test]
fn focused_input_takes_precedence() {
    let tree = vec![Node { input: true, rect: Some(1), children: Some(vec![Some(1)]) }, leaf(true, Some(2))];
    let released = Cell::new(0);
    assert_eq!(focused_rect(&tree, Some(0), &released), Some(1));
    assert_eq!(released.get(), 1);
    assert_eq!(focused_rect(&tree, None, &released), None);
    assert_eq!(released.get(), 1);
}

#[test]
fn focused_container_is_searched_three_levels_down() {
    let tree = vec![
        inner(vec![Some(1)]),
        inner(vec![Some(2)]),
        inner(vec![Some(3)]),
        leaf(true, Some(3)),
    ];
    let released = Cell::new(0);
    assert_eq!(focused_rect(&tree, Some(0), &released), Some(3));
    assert_eq!(released.get(), 1);
    let deeper = vec![
        inner(vec![Some(1)]),
        inner(vec![Some(2)]),
        inner(vec![Some(3)]),
        inner(vec![Some(4)]),
        leaf(true, Some(4)),
    ];
    assert_eq!(focused_rect(&deeper, Some(0), &released), None);
}

#[test]
fn focused_element_fallbacks() {
    let released = Cell::new(0);
    // app element 1 has focused element 10
    let r = get_focused_element(
        Some(1u32),
        |e: u32| if e == 1 { Some(10u32) } else { None },
        |_e: u32| None,
        |_e: u32| released.set(released.get() + 1),
        || Some(99u32),
    );
    assert_eq!(r, Some(10));
    assert_eq!(released.get(), 1);
    // no app focus; window 2 has focused element 20
    let r = get_focused_element(
        Some(1u32),
        |e: u32| if e == 2 { Some(20u32) } else { None },
        |e: u32| if e == 1 { Some(2u32) } else { None },
        |_e: u32| released.set(released.get() + 1),
        || Some(99u32),
    );
    assert_eq!(r, Some(20));
    assert_eq!(released.get(), 3);
    // nothing through the app: system-wide
    let r = get_focused_element(Some(1u32), |_e: u32| None, |_e: u32| Some(2u32), |_e: u32| (), || Some(99u32));
    assert_eq!(r, Some(99));
    let r = get_focused_element(None, |_e: u32| Some(5u32), |_e: u32| None, |_e: u32| (), || None::<u32>);
    assert_eq!(r, None);
}

#[test]
fn frontmost_pid_keeps_positive_ids() {
    assert_eq!(frontmost_pid(0), None);
    assert_eq!(frontmost_pid(812), Some(812));
    assert_eq!(frontmost_pid(0xFFFF_FFFF), None);
    assert_eq!(frontmost_pid(0x1_0000_0005), Some(5));
}
