//! What the focused-input search finds, stated by paths through the
//! accessibility tree rather than by the order of the search.
use vstd::prelude::*;
use crate::focus::{
    answer1, answer2, focused_element_of, focused_input_rect, scan_children, scanned_count,
    search_children, SEARCH_DEPTH,
};

verus! {

/// The element reached from `el` by following `path`: each step picks, by
/// its position, one of the first twenty entries of the current element's
/// readable child list; `None` when a step cannot be taken.
pub open spec fn walk<H, A, FC, FN, FA>(children: FC, count: FN, child_at: FA, el: H, path: Seq<i64>) -> Option<H> where
    FC: Fn(H) -> Option<A>,
    FN: Fn(A) -> i64,
    FA: Fn(A, i64) -> Option<H>,
    decreases path.len(),
{
    if path.len() == 0 {
        Some(el)
    } else {
        match answer1(children, el) {
            None => None,
            Some(list) => if 0 <= path[0] && path[0] < scanned_count(answer1(count, list)) {
                match answer2(child_at, list, path[0]) {
                    Some(c) => walk(children, count, child_at, c, path.drop_first()),
                    None => None,
                }
            } else {
                None
            },
        }
    }
}

/// Following `path` from `el` reaches a text input whose rectangle is `x`.
pub open spec fn leads_to_input<H, A, R, FC, FN, FA, FI, FR>(
    children: FC,
    count: FN,
    child_at: FA,
    is_input: FI,
    rect: FR,
    el: H,
    path: Seq<i64>,
    x: R,
) -> bool where
    FC: Fn(H) -> Option<A>,
    FN: Fn(A) -> i64,
    FA: Fn(A, i64) -> Option<H>,
    FI: Fn(H) -> bool,
    FR: Fn(H) -> Option<R>,
 {
    &&& walk(children, count, child_at, el, path) is Some
    &&& answer1(is_input, walk(children, count, child_at, el, path)->0)
    &&& answer1(rect, walk(children, count, child_at, el, path)->0) == Some(x)
}

proof fn lemma_walk_step<H, A, FC, FN, FA>(children: FC, count: FN, child_at: FA, el: H, j: i64, rest: Seq<i64>)
    where
        FC: Fn(H) -> Option<A>,
        FN: Fn(A) -> i64,
        FA: Fn(A, i64) -> Option<H>,
    requires
        answer1(children, el) is Some,
        0 <= j < scanned_count(answer1(count, answer1(children, el)->0)),
        answer2(child_at, answer1(children, el)->0, j) is Some,
    ensures
        walk(children, count, child_at, el, seq![j] + rest) == walk(
            children,
            count,
            child_at,
            answer2(child_at, answer1(children, el)->0, j)->0,
            rest,
        ),
{
    assert((seq![j] + rest).drop_first() =~= rest);
    assert((seq![j] + rest)[0] == j);
}

proof fn lemma_search_sound<H, A, R, FC, FN, FA, FI, FR>(
    children: FC,
    count: FN,
    child_at: FA,
    is_input: FI,
    rect: FR,
    el: H,
    depth: u32,
    max_depth: u32,
    x: R,
) -> (path: Seq<i64>) where
    FC: Fn(H) -> Option<A>,
    FN: Fn(A) -> i64,
    FA: Fn(A, i64) -> Option<H>,
    FI: Fn(H) -> bool,
    FR: Fn(H) -> Option<R>,

    requires
        search_children(children, count, child_at, is_input, rect, el, depth, max_depth) == Some(x),
    ensures
        1 <= path.len() <= max_depth - depth,
        leads_to_input(children, count, child_at, is_input, rect, el, path, x),
    decreases max_depth - depth, 1int, 0int,
{
    let list = answer1(children, el)->0;
    lemma_scan_sound(
        children,
        count,
        child_at,
        is_input,
        rect,
        el,
        list,
        0,
        scanned_count(answer1(count, list)),
        depth,
        max_depth,
        x,
    )
}

proof fn lemma_scan_sound<H, A, R, FC, FN, FA, FI, FR>(
    children: FC,
    count: FN,
    child_at: FA,
    is_input: FI,
    rect: FR,
    el: H,
    list: A,
    i: i64,
    n: i64,
    depth: u32,
    max_depth: u32,
    x: R,
) -> (path: Seq<i64>) where
    FC: Fn(H) -> Option<A>,
    FN: Fn(A) -> i64,
    FA: Fn(A, i64) -> Option<H>,
    FI: Fn(H) -> bool,
    FR: Fn(H) -> Option<R>,

    requires
        answer1(children, el) == Some(list),
        n == scanned_count(answer1(count, list)),
        0 <= i,
        scan_children(children, count, child_at, is_input, rect, list, i, n, depth, max_depth) == Some(x),
    ensures
        1 <= path.len() <= max_depth - depth,
        leads_to_input(children, count, child_at, is_input, rect, el, path, x),
    decreases max_depth - depth, 0int, n - i,
{
    let next = (i + 1) as i64;
    let rest = scan_children(children, count, child_at, is_input, rect, list, next, n, depth, max_depth);
    match answer2(child_at, list, i) {
        None => lemma_scan_sound(children, count, child_at, is_input, rect, el, list, next, n, depth, max_depth, x),
        Some(c) => {
            if answer1(is_input, c) && answer1(rect, c) is Some {
                let p: Seq<i64> = seq![i];
                lemma_walk_step(children, count, child_at, el, i, Seq::<i64>::empty());
                p
            } else {
                let below = search_children(children, count, child_at, is_input, rect, c, (depth + 1) as u32, max_depth);
                if below is Some {
                    let q = lemma_search_sound(children, count, child_at, is_input, rect, c, (depth + 1) as u32, max_depth, x);
                    lemma_walk_step(children, count, child_at, el, i, q);
                    seq![i] + q
                } else {
                    lemma_scan_sound(children, count, child_at, is_input, rect, el, list, next, n, depth, max_depth, x)
                }
            }
        },
    }
}

proof fn lemma_search_complete<H, A, R, FC, FN, FA, FI, FR>(
    children: FC,
    count: FN,
    child_at: FA,
    is_input: FI,
    rect: FR,
    el: H,
    depth: u32,
    max_depth: u32,
    path: Seq<i64>,
    x: R,
) where
    FC: Fn(H) -> Option<A>,
    FN: Fn(A) -> i64,
    FA: Fn(A, i64) -> Option<H>,
    FI: Fn(H) -> bool,
    FR: Fn(H) -> Option<R>,

    requires
        1 <= path.len() <= max_depth - depth,
        leads_to_input(children, count, child_at, is_input, rect, el, path, x),
    ensures
        search_children(children, count, child_at, is_input, rect, el, depth, max_depth) is Some,
    decreases max_depth - depth, 1int, 0int,
{
    let list = answer1(children, el)->0;
    let n = scanned_count(answer1(count, list));
    lemma_scan_complete(children, count, child_at, is_input, rect, el, list, 0, n, depth, max_depth, path, x);
}

proof fn lemma_scan_complete<H, A, R, FC, FN, FA, FI, FR>(
    children: FC,
    count: FN,
    child_at: FA,
    is_input: FI,
    rect: FR,
    el: H,
    list: A,
    i: i64,
    n: i64,
    depth: u32,
    max_depth: u32,
    path: Seq<i64>,
    x: R,
) where
    FC: Fn(H) -> Option<A>,
    FN: Fn(A) -> i64,
    FA: Fn(A, i64) -> Option<H>,
    FI: Fn(H) -> bool,
    FR: Fn(H) -> Option<R>,

    requires
        answer1(children, el) == Some(list),
        n == scanned_count(answer1(count, list)),
        1 <= path.len() <= max_depth - depth,
        0 <= i <= path[0],
        leads_to_input(children, count, child_at, is_input, rect, el, path, x),
    ensures
        scan_children(children, count, child_at, is_input, rect, list, i, n, depth, max_depth) is Some,
    decreases max_depth - depth, 0int, path[0] - i,
{
    let j = path[0];
    let rest = path.drop_first();
    assert(path =~= seq![j] + rest);
    let next = (i + 1) as i64;
    let c = answer2(child_at, list, j)->0;
    lemma_walk_step(children, count, child_at, el, j, rest);
    if i < j {
        lemma_scan_complete(children, count, child_at, is_input, rect, el, list, next, n, depth, max_depth, path, x);
    } else {
        if !(answer1(is_input, c) && answer1(rect, c) is Some) {
            if rest.len() == 0 {
                assert(walk(children, count, child_at, c, rest) == Some(c));
            } else {
                lemma_search_complete(children, count, child_at, is_input, rect, c, (depth + 1) as u32, max_depth, rest, x);
            }
        }
    }
}

/// The search below an element finds a rectangle exactly when some text
/// input with a rectangle can be reached from it within the remaining
/// levels (each level among the first twenty readable children); and what
/// it finds is the rectangle of such an input.
pub proof fn lemma_search_finds_reachable_inputs<H, A, R, FC, FN, FA, FI, FR>(
    children: FC,
    count: FN,
    child_at: FA,
    is_input: FI,
    rect: FR,
    el: H,
    depth: u32,
    max_depth: u32,
    path: Seq<i64>,
    x: R,
) where
    FC: Fn(H) -> Option<A>,
    FN: Fn(A) -> i64,
    FA: Fn(A, i64) -> Option<H>,
    FI: Fn(H) -> bool,
    FR: Fn(H) -> Option<R>,

    ensures
        (1 <= path.len() <= max_depth - depth && leads_to_input(children, count, child_at, is_input, rect, el, path, x))
            ==> search_children(children, count, child_at, is_input, rect, el, depth, max_depth) is Some,
        search_children(children, count, child_at, is_input, rect, el, depth, max_depth) == Some(x) ==> exists|p: Seq<i64>|
            1 <= p.len() <= max_depth - depth && #[trigger] leads_to_input(children, count, child_at, is_input, rect, el, p, x),
{
    if 1 <= path.len() <= max_depth - depth && leads_to_input(children, count, child_at, is_input, rect, el, path, x) {
        lemma_search_complete(children, count, child_at, is_input, rect, el, depth, max_depth, path, x);
    }
    if search_children(children, count, child_at, is_input, rect, el, depth, max_depth) == Some(x) {
        let p = lemma_search_sound(children, count, child_at, is_input, rect, el, depth, max_depth, x);
    }
}

/// The rectangle reported for a focused element `f`: its own when it is a
/// text input with a rectangle; otherwise nothing exactly when no text input
/// with a rectangle lies within three levels below it, and else the
/// rectangle of such an input. In particular a focused text input without a
/// rectangle does not stop the search below it.
pub proof fn lemma_focused_rect_characterised<H, A, R, FC, FN, FA, FI, FR>(
    children: FC,
    count: FN,
    child_at: FA,
    is_input: FI,
    rect: FR,
    f: H,
    path: Seq<i64>,
    x: R,
) where
    FC: Fn(H) -> Option<A>,
    FN: Fn(A) -> i64,
    FA: Fn(A, i64) -> Option<H>,
    FI: Fn(H) -> bool,
    FR: Fn(H) -> Option<R>,

    ensures
        answer1(is_input, f) && answer1(rect, f) is Some ==> focused_input_rect(children, count, child_at, is_input, rect, f)
            == answer1(rect, f),
        (1 <= path.len() <= SEARCH_DEPTH && leads_to_input(children, count, child_at, is_input, rect, f, path, x))
            ==> focused_input_rect(children, count, child_at, is_input, rect, f) is Some,
        focused_input_rect(children, count, child_at, is_input, rect, f) == Some(x) ==> (answer1(is_input, f) && answer1(rect, f)
            == Some(x)) || exists|p: Seq<i64>|
            1 <= p.len() <= SEARCH_DEPTH && #[trigger] leads_to_input(children, count, child_at, is_input, rect, f, p, x),
{
    lemma_search_finds_reachable_inputs(children, count, child_at, is_input, rect, f, 0, SEARCH_DEPTH, path, x);
}

/// The focused element: the application's own focused element when it has
/// one; otherwise the system-wide focused element whenever the application
/// route finds nothing (no application element, no focused window, or a
/// window without a focused element); the window's focused element only
/// when the application has none of its own.
pub proof fn lemma_focus_falls_back_to_system<E, H, FF, FW, FS>(
    app: Option<E>,
    focused_of: FF,
    focused_window: FW,
    system_focused: FS,
) where
    FF: Fn(E) -> Option<H>,
    FW: Fn(E) -> Option<E>,
    FS: Fn() -> Option<H>,

    ensures
        ({
            let route: Option<H> = match app {
                None => None,
                Some(e) => match answer1(focused_of, e) {
                    Some(h) => Some(h),
                    None => match answer1(focused_window, e) {
                        None => None,
                        Some(w) => answer1(focused_of, w),
                    },
                },
            };
            let system = choose|o: Option<H>| call_ensures(system_focused, (), o);
            &&& route is None ==> focused_element_of(app, focused_of, focused_window, system_focused) == system
            &&& route is Some ==> focused_element_of(app, focused_of, focused_window, system_focused) == route
        }),
        app is Some && answer1(focused_of, app->0) is Some ==> focused_element_of(app, focused_of, focused_window, system_focused)
            == answer1(focused_of, app->0),
{
}

/// At most twenty children of an element are looked at, all of them when
/// there are no more; the search goes three levels below the focused
/// element.
pub proof fn lemma_search_bounds(count: i64)
    ensures
        scanned_count(count) <= 20,
        count <= 20 ==> scanned_count(count) == count,
        count >= 20 ==> scanned_count(count) == 20,
        SEARCH_DEPTH == 3,
{
}

} // verus!
