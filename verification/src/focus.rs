//! Finding the screen rectangle of the focused text input.
//!
//! The accessibility queries are handed in as functions over element
//! handles: reading an element's children (a list to be released after
//! use), the size of a list and its entries, whether an element is a text
//! input, and an element's rectangle. The search decides which elements to
//! look at and in what order: the focused element first, then its
//! descendants, depth first, at most a few levels down and at most
//! twenty children per element.
use vstd::prelude::*;

verus! {

/// At most this many children of an element are looked at.
pub const MAX_CHILDREN: i64 = 20;

/// How many levels below the focused element are searched.
pub const SEARCH_DEPTH: u32 = 3;

/// A query function that always gives the same answer for the same
/// argument.
pub open spec fn functional1<T, O, F: Fn(T) -> O>(f: F) -> bool {
    forall|x: T, o1: O, o2: O| call_ensures(f, (x,), o1) && call_ensures(f, (x,), o2) ==> o1 == o2
}

/// The answer of a functional query for an argument.
pub open spec fn answer1<T, O, F: Fn(T) -> O>(f: F, x: T) -> O {
    choose|o: O| call_ensures(f, (x,), o)
}

/// The answer of a functional two-argument query.
pub open spec fn answer2<T, U, O, F: Fn(T, U) -> O>(f: F, x: T, y: U) -> O {
    choose|o: O| call_ensures(f, (x, y), o)
}

/// A two-argument query function that always gives the same answer for the
/// same arguments.
pub open spec fn functional2<T, U, O, F: Fn(T, U) -> O>(f: F) -> bool {
    forall|x: T, y: U, o1: O, o2: O| call_ensures(f, (x, y), o1) && call_ensures(f, (x, y), o2) ==> o1 == o2
}

proof fn lemma_answer1<T, O, F: Fn(T) -> O>(f: F, x: T, o: O)
    requires
        functional1(f),
        call_ensures(f, (x,), o),
    ensures
        answer1(f, x) == o,
{
}

proof fn lemma_answer2<T, U, O, F: Fn(T, U) -> O>(f: F, x: T, y: U, o: O)
    requires
        functional2(f),
        call_ensures(f, (x, y), o),
    ensures
        answer2(f, x, y) == o,
{
}

/// The number of children looked at for a list of `count` entries.
pub open spec fn scanned_count(count: i64) -> i64 {
    if count < MAX_CHILDREN { count } else { MAX_CHILDREN }
}

/// Whether all the queries answer functionally.
pub open spec fn functional_queries<H, A, R, FC, FN, FA, FI, FR>(
    children: FC,
    count: FN,
    child_at: FA,
    is_input: FI,
    rect: FR,
) -> bool where
    FC: Fn(H) -> Option<A>,
    FN: Fn(A) -> i64,
    FA: Fn(A, i64) -> Option<H>,
    FI: Fn(H) -> bool,
    FR: Fn(H) -> Option<R>,
 {
    &&& functional1(children)
    &&& functional1(count)
    &&& functional2(child_at)
    &&& functional1(is_input)
    &&& functional1(rect)
}

/// The rectangle found below `el` at `depth` (the focused element is at
/// depth 0): nothing at or beyond `max_depth`, nothing when the children
/// cannot be read; otherwise the first result of scanning the children.
pub open spec fn search_children<H, A, R, FC, FN, FA, FI, FR>(
    children: FC,
    count: FN,
    child_at: FA,
    is_input: FI,
    rect: FR,
    el: H,
    depth: u32,
    max_depth: u32,
) -> Option<R> where
    FC: Fn(H) -> Option<A>,
    FN: Fn(A) -> i64,
    FA: Fn(A, i64) -> Option<H>,
    FI: Fn(H) -> bool,
    FR: Fn(H) -> Option<R>,
    decreases max_depth - depth, 1int, 0int,
{
    if depth >= max_depth {
        None
    } else {
        match answer1(children, el) {
            None => None,
            Some(list) => scan_children(
                children,
                count,
                child_at,
                is_input,
                rect,
                list,
                0,
                scanned_count(answer1(count, list)),
                depth,
                max_depth,
            ),
        }
    }
}

/// The first rectangle found among entries `i..n` of a child list: an entry
/// that cannot be read is skipped; a child that is a text input with a
/// rectangle gives that rectangle; otherwise the child's own children are
/// searched one level deeper before the next entry.
pub open spec fn scan_children<H, A, R, FC, FN, FA, FI, FR>(
    children: FC,
    count: FN,
    child_at: FA,
    is_input: FI,
    rect: FR,
    list: A,
    i: i64,
    n: i64,
    depth: u32,
    max_depth: u32,
) -> Option<R> where
    FC: Fn(H) -> Option<A>,
    FN: Fn(A) -> i64,
    FA: Fn(A, i64) -> Option<H>,
    FI: Fn(H) -> bool,
    FR: Fn(H) -> Option<R>,
    decreases max_depth - depth, 0int, n - i,
{
    if i >= n || depth >= max_depth {
        None
    } else {
        let rest = scan_children(children, count, child_at, is_input, rect, list, (i + 1) as i64, n, depth, max_depth);
        match answer2(child_at, list, i) {
            None => rest,
            Some(child) => if answer1(is_input, child) && answer1(rect, child) is Some {
                answer1(rect, child)
            } else {
                match search_children(children, count, child_at, is_input, rect, child, (depth + 1) as u32, max_depth) {
                    Some(r) => Some(r),
                    None => rest,
                }
            },
        }
    }
}

/// Whether `x` is the rectangle of an element that was judged a text input.
pub open spec fn rect_of_some_input<H, R, FI, FR>(is_input: FI, rect: FR, x: R) -> bool where
    FI: Fn(H) -> bool,
    FR: Fn(H) -> Option<R>,
 {
    exists|h: H| call_ensures(is_input, (h,), true) && call_ensures(rect, (h,), Some(x))
}

/// Searches the children of `el` (at `depth`, at most `max_depth` levels
/// below the focused element) for a text input with a rectangle, depth
/// first, looking at no more than twenty children per element; each child
/// list read is released before returning (which the contract does not
/// state: releasing is not something a clause can speak of here).
pub fn find_text_input_in_children<H: Copy, A: Copy, R, FC, FN, FA, FI, FR, FD>(
    el: H,
    depth: u32,
    max_depth: u32,
    children: FC,
    count: FN,
    child_at: FA,
    is_input: FI,
    rect: FR,
    release: FD,
) -> (r: Option<R>) where
    FC: Fn(H) -> Option<A> + Copy,
    FN: Fn(A) -> i64 + Copy,
    FA: Fn(A, i64) -> Option<H> + Copy,
    FI: Fn(H) -> bool + Copy,
    FR: Fn(H) -> Option<R> + Copy,
    FD: Fn(A) + Copy,

    requires
        forall|h: H| call_requires(children, (h,)),
        forall|a: A| call_requires(count, (a,)),
        forall|a: A, i: i64| call_requires(child_at, (a, i)),
        forall|h: H| call_requires(is_input, (h,)),
        forall|h: H| call_requires(rect, (h,)),
        forall|a: A| call_requires(release, (a,)),
    ensures
        depth >= max_depth ==> r is None,
        r matches Some(x) ==> rect_of_some_input(is_input, rect, x),
        functional_queries(children, count, child_at, is_input, rect) ==> r == search_children(
            children,
            count,
            child_at,
            is_input,
            rect,
            el,
            depth,
            max_depth,
        ),
    decreases max_depth - depth,
{
    if depth >= max_depth {
        return None;
    }
    let list = match children(el) {
        Some(l) => l,
        None => {
            proof {
                if functional_queries(children, count, child_at, is_input, rect) {
                    lemma_answer1(children, el, None);
                }
            }
            return None;
        },
    };
    let total = count(list);
    let n: i64 = if total < MAX_CHILDREN { total } else { MAX_CHILDREN };
    proof {
        if functional_queries(children, count, child_at, is_input, rect) {
            lemma_answer1(children, el, Some(list));
            lemma_answer1(count, list, total);
        }
    }
    let ghost det = functional_queries(children, count, child_at, is_input, rect);
    let mut i: i64 = 0;
    while i < n
        invariant
            forall|h: H| call_requires(children, (h,)),
            forall|a: A| call_requires(count, (a,)),
            forall|a: A, i: i64| call_requires(child_at, (a, i)),
            forall|h: H| call_requires(is_input, (h,)),
            forall|h: H| call_requires(rect, (h,)),
            forall|a: A| call_requires(release, (a,)),
            depth < max_depth,
            det == functional_queries(children, count, child_at, is_input, rect),
            det ==> search_children(children, count, child_at, is_input, rect, el, depth, max_depth)
                == scan_children(children, count, child_at, is_input, rect, list, i, n, depth, max_depth),
        decreases n - i,
    {
        let entry = child_at(list, i);
        match entry {
            None => {
                proof {
                    if det {
                        lemma_answer2(child_at, list, i, None);
                    }
                }
            },
            Some(child) => {
                proof {
                    if det {
                        lemma_answer2(child_at, list, i, Some(child));
                    }
                }
                let input = is_input(child);
                proof {
                    if det {
                        lemma_answer1(is_input, child, input);
                    }
                }
                if input {
                    let found = rect(child);
                    proof {
                        if det {
                            lemma_answer1(rect, child, found);
                        }
                    }
                    if let Some(x) = found {
                        release(list);
                        return Some(x);
                    }
                }
                let below = find_text_input_in_children(
                    child,
                    depth + 1,
                    max_depth,
                    children,
                    count,
                    child_at,
                    is_input,
                    rect,
                    release,
                );
                if let Some(x) = below {
                    release(list);
                    return Some(x);
                }
            },
        }
        i = i + 1;
    }
    release(list);
    None
}

proof fn lemma_scan_finds<H, A, R, FC, FN, FA, FI, FR>(
    children: FC,
    count: FN,
    child_at: FA,
    is_input: FI,
    rect: FR,
    list: A,
    i: i64,
    n: i64,
    j: i64,
    depth: u32,
    max_depth: u32,
) where
    FC: Fn(H) -> Option<A>,
    FN: Fn(A) -> i64,
    FA: Fn(A, i64) -> Option<H>,
    FI: Fn(H) -> bool,
    FR: Fn(H) -> Option<R>,

    requires
        depth < max_depth,
        i <= j < n,
        answer2(child_at, list, j) is Some,
        answer1(is_input, answer2(child_at, list, j)->0),
        answer1(rect, answer2(child_at, list, j)->0) is Some,
    ensures
        scan_children(children, count, child_at, is_input, rect, list, i, n, depth, max_depth) is Some,
    decreases j - i,
{
    if i < j {
        lemma_scan_finds(children, count, child_at, is_input, rect, list, (i + 1) as i64, n, j, depth, max_depth);
    }
}

/// A direct child that is a text input with a rectangle, among the first
/// twenty entries of an element's readable child list, guarantees that the
/// search below that element (within the depth limit) reports a rectangle.
pub proof fn lemma_child_input_is_found<H, A, R, FC, FN, FA, FI, FR>(
    children: FC,
    count: FN,
    child_at: FA,
    is_input: FI,
    rect: FR,
    el: H,
    depth: u32,
    max_depth: u32,
    j: i64,
) where
    FC: Fn(H) -> Option<A>,
    FN: Fn(A) -> i64,
    FA: Fn(A, i64) -> Option<H>,
    FI: Fn(H) -> bool,
    FR: Fn(H) -> Option<R>,

    requires
        depth < max_depth,
        answer1(children, el) is Some,
        0 <= j < scanned_count(answer1(count, answer1(children, el)->0)),
        answer2(child_at, answer1(children, el)->0, j) is Some,
        answer1(is_input, answer2(child_at, answer1(children, el)->0, j)->0),
        answer1(rect, answer2(child_at, answer1(children, el)->0, j)->0) is Some,
    ensures
        search_children(children, count, child_at, is_input, rect, el, depth, max_depth) is Some,
{
    let list = answer1(children, el)->0;
    lemma_scan_finds(children, count, child_at, is_input, rect, list, 0, scanned_count(answer1(count, list)), j, depth, max_depth);
}

/// The rectangle reported for the focused element `focused`: its own
/// rectangle when it is a text input that has one, otherwise the first
/// found among its descendants.
pub open spec fn focused_input_rect<H, A, R, FC, FN, FA, FI, FR>(
    children: FC,
    count: FN,
    child_at: FA,
    is_input: FI,
    rect: FR,
    focused: H,
) -> Option<R> where
    FC: Fn(H) -> Option<A>,
    FN: Fn(A) -> i64,
    FA: Fn(A, i64) -> Option<H>,
    FI: Fn(H) -> bool,
    FR: Fn(H) -> Option<R>,
 {
    if answer1(is_input, focused) && answer1(rect, focused) is Some {
        answer1(rect, focused)
    } else {
        search_children(children, count, child_at, is_input, rect, focused, 0, SEARCH_DEPTH)
    }
}

/// The rectangle of the focused text input, given the focused element
/// (`None` when there is none): the element itself when it is a text input
/// with a rectangle (web and Electron apps often focus a container, so)
/// otherwise a text input among its descendants, searched three levels
/// down. The focused element is released before returning (not stated in
/// the contract).
pub fn get_focused_text_input_rect<H: Copy, A: Copy, R, FC, FN, FA, FI, FR, FD, FE>(
    focused: Option<H>,
    children: FC,
    count: FN,
    child_at: FA,
    is_input: FI,
    rect: FR,
    release_list: FD,
    release_element: FE,
) -> (r: Option<R>) where
    FC: Fn(H) -> Option<A> + Copy,
    FN: Fn(A) -> i64 + Copy,
    FA: Fn(A, i64) -> Option<H> + Copy,
    FI: Fn(H) -> bool + Copy,
    FR: Fn(H) -> Option<R> + Copy,
    FD: Fn(A) + Copy,
    FE: Fn(H),

    requires
        forall|h: H| call_requires(children, (h,)),
        forall|a: A| call_requires(count, (a,)),
        forall|a: A, i: i64| call_requires(child_at, (a, i)),
        forall|h: H| call_requires(is_input, (h,)),
        forall|h: H| call_requires(rect, (h,)),
        forall|a: A| call_requires(release_list, (a,)),
        forall|h: H| call_requires(release_element, (h,)),
    ensures
        focused is None ==> r is None,
        r matches Some(x) ==> rect_of_some_input(is_input, rect, x),
        functional_queries(children, count, child_at, is_input, rect) ==> r == (match focused {
            Some(f) => focused_input_rect(children, count, child_at, is_input, rect, f),
            None => None,
        }),
{
    let f = match focused {
        Some(f) => f,
        None => return None,
    };
    let ghost det = functional_queries(children, count, child_at, is_input, rect);
    let input = is_input(f);
    proof {
        if det {
            lemma_answer1(is_input, f, input);
        }
    }
    if input {
        let found = rect(f);
        proof {
            if det {
                lemma_answer1(rect, f, found);
            }
        }
        if let Some(x) = found {
            release_element(f);
            return Some(x);
        }
    }
    let below = find_text_input_in_children(
        f,
        0,
        SEARCH_DEPTH,
        children,
        count,
        child_at,
        is_input,
        rect,
        release_list,
    );
    release_element(f);
    below
}

/// Whether `h` is an element that a focus query gave.
pub open spec fn given_by_focus_query<E, H, FF, FS>(focused_of: FF, system_focused: FS, h: H) -> bool where
    FF: Fn(E) -> Option<H>,
    FS: Fn() -> Option<H>,
 {
    (exists|e: E| call_ensures(focused_of, (e,), Some(h))) || call_ensures(system_focused, (), Some(h))
}

/// The focused element found through the frontmost application's element
/// `app` and the queries, when they answer functionally: the application's
/// focused element, else the focused element of its focused window, else
/// the system-wide focused element.
pub open spec fn focused_element_of<E, H, FF, FW, FS>(
    app: Option<E>,
    focused_of: FF,
    focused_window: FW,
    system_focused: FS,
) -> Option<H> where
    FF: Fn(E) -> Option<H>,
    FW: Fn(E) -> Option<E>,
    FS: Fn() -> Option<H>,
 {
    let system = choose|o: Option<H>| call_ensures(system_focused, (), o);
    match app {
        Some(e) => match answer1(focused_of, e) {
            Some(h) => Some(h),
            None => match answer1(focused_window, e) {
                Some(w) => match answer1(focused_of, w) {
                    Some(h) => Some(h),
                    None => system,
                },
                None => system,
            },
        },
        None => system,
    }
}

/// Finds the focused element. Asking the frontmost application (`app`, its
/// element when there is one) works better for browsers and Electron apps
/// than asking system-wide, so the application's focused element comes
/// first, then the focused element of its focused window, and only then
/// the system-wide focused element. The window and the application element
/// are released once asked (not stated in the contract).
pub fn get_focused_element<E: Copy, H, FF, FW, FR, FS>(
    app: Option<E>,
    focused_of: FF,
    focused_window: FW,
    release: FR,
    system_focused: FS,
) -> (r: Option<H>) where
    FF: Fn(E) -> Option<H>,
    FW: Fn(E) -> Option<E>,
    FR: Fn(E),
    FS: Fn() -> Option<H>,

    requires
        forall|e: E| call_requires(focused_of, (e,)),
        forall|e: E| call_requires(focused_window, (e,)),
        forall|e: E| call_requires(release, (e,)),
        call_requires(system_focused, ()),
    ensures
        r matches Some(h) ==> given_by_focus_query(focused_of, system_focused, h),
        r is None ==> call_ensures(system_focused, (), None),
        (functional1(focused_of) && functional1(focused_window) && (forall|o1: Option<H>, o2: Option<H>|
            call_ensures(system_focused, (), o1) && call_ensures(system_focused, (), o2) ==> o1 == o2))
            ==> r == focused_element_of(app, focused_of, focused_window, system_focused),
{
    let ghost det = functional1(focused_of) && functional1(focused_window) && (forall|o1: Option<H>, o2: Option<H>|
        call_ensures(system_focused, (), o1) && call_ensures(system_focused, (), o2) ==> o1 == o2);
    if let Some(e) = app {
        let first = focused_of(e);
        proof {
            if det {
                lemma_answer1(focused_of, e, first);
            }
        }
        if let Some(h) = first {
            release(e);
            return Some(h);
        }
        let window = focused_window(e);
        proof {
            if det {
                lemma_answer1(focused_window, e, window);
            }
        }
        if let Some(w) = window {
            let second = focused_of(w);
            proof {
                if det {
                    lemma_answer1(focused_of, w, second);
                }
            }
            release(w);
            if let Some(h) = second {
                release(e);
                return Some(h);
            }
        }
        release(e);
    }
    system_focused()
}

/// The process id of the frontmost application from the raw value its
/// query returned (read as a 32-bit integer): positive ids only.
pub fn frontmost_pid(raw: u64) -> (r: Option<i32>)
    ensures
        r == (if (raw as i32) > 0 { Some(raw as i32) } else { None }),
{
    let pid = raw as i32;
    if pid <= 0 {
        None
    } else {
        Some(pid)
    }
}

} // verus!
