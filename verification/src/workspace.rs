//! The window layout of a workspace: the order in which its windows are
//! cycled, which one has the focus, and the buddy tree that decides which
//! window takes over the area of a closed one.
use vstd::prelude::*;
use crate::window_manager::{merge_rects, merge_spec, Rect};
use vstd::multiset::Multiset;
use vstd::seq_lib::lemma_multiset_commutative;
use crate::window_tree::{
    WindowNode, expand_leaves, swapped_leaves, lemma_inserted_leaves, lemma_removed_leaves,
    lemma_swap_twice,
};

verus! {

broadcast use vstd::seq_lib::group_to_multiset_ensures;

/// The index of the first occurrence of `x` in `s`, or `-1`.
pub open spec fn first_index(s: Seq<usize>, x: usize) -> int
    decreases s.len(),
{
    if s.len() == 0 {
        -1
    } else if s[0] == x {
        0
    } else {
        let r = first_index(s.drop_first(), x);
        if r < 0 {
            -1
        } else {
            r + 1
        }
    }
}

proof fn lemma_first_index(s: Seq<usize>, x: usize, i: int)
    requires
        -1 <= i <= s.len(),
        i >= 0 ==> i < s.len() && s[i] == x,
        forall|j: int| 0 <= j < s.len() && (i < 0 || j < i) ==> s[j] != x,
    ensures
        first_index(s, x) == i,
    decreases s.len(),
{
    if s.len() > 0 && i != 0 {
        let t = s.drop_first();
        let i2 = if i < 0 { -1 } else { i - 1 };
        assert forall|j: int| 0 <= j < t.len() && (i2 < 0 || j < i2) implies t[j] != x by {
            assert(t[j] == s[j + 1]);
        }
        lemma_first_index(t, x, i2);
    }
}

/// The position of the window `needle` in the window order.
pub fn get_element_cursor_from_orderer(linked_list: &Vec<usize>, needle: usize) -> (r: Option<usize>)
    ensures
        match r {
            Some(i) => first_index(linked_list@, needle) == i,
            None => first_index(linked_list@, needle) == -1,
        },
        r matches Some(i) ==> i < linked_list.len() && linked_list[i as int] == needle,
        r is None ==> !linked_list@.contains(needle),
{
    let mut i: usize = 0;
    while i < linked_list.len()
        invariant
            i <= linked_list.len(),
            forall|j: int| 0 <= j < i ==> linked_list[j] != needle,
        decreases linked_list.len() - i,
    {
        if linked_list[i] == needle {
            proof {
                lemma_first_index(linked_list@, needle, i as int);
            }
            return Some(i);
        }
        i = i + 1;
    }
    proof {
        lemma_first_index(linked_list@, needle, -1);
    }
    None
}

/// The window after `f` in the cyclic order `s`.
pub open spec fn next_in_order(s: Seq<usize>, f: usize) -> usize {
    let i = first_index(s, f);
    if i + 1 < s.len() {
        s[i + 1]
    } else {
        s[0]
    }
}

/// The window before `f` in the cyclic order `s`.
pub open spec fn prev_in_order(s: Seq<usize>, f: usize) -> usize {
    let i = first_index(s, f);
    if i > 0 {
        s[i - 1]
    } else {
        s[s.len() - 1]
    }
}

/// The order after moving the window at `i` one place forward; the last
/// window moves to the second place.
pub open spec fn moved_forward(s: Seq<usize>, i: int) -> Seq<usize> {
    if i + 1 < s.len() {
        s.update(i, s[i + 1]).update(i + 1, s[i])
    } else {
        s.remove(i).insert(1, s[i])
    }
}

/// The window the moved window changes places with when moving forward.
pub open spec fn forward_partner(s: Seq<usize>, i: int) -> usize {
    if i + 1 < s.len() {
        s[i + 1]
    } else {
        s[0]
    }
}

/// The order after moving the window at `i` one place backward; the first
/// window moves to the second-to-last place.
pub open spec fn moved_backward(s: Seq<usize>, i: int) -> Seq<usize> {
    if i > 0 {
        s.update(i, s[i - 1]).update(i - 1, s[i])
    } else {
        s.remove(i).insert(s.len() - 2, s[i])
    }
}

/// The window the moved window changes places with when moving backward.
pub open spec fn backward_partner(s: Seq<usize>, i: int) -> usize {
    if i > 0 {
        s[i - 1]
    } else {
        s[s.len() - 1]
    }
}

/// The area of a window on the screen.
#[derive(Copy, Clone, Debug, PartialEq, Eq)]
pub struct WindowArea {
    pub id: usize,
    pub rect: Rect,
}

/// The window ids of `areas`, in order.
pub open spec fn area_ids(areas: Seq<WindowArea>) -> Seq<usize> {
    areas.map_values(|a: WindowArea| a.id)
}

/// Whether area `a` can grow over its buddy `b` (see [`merge_spec`]):
/// buddies side by side share their top, and the grown side fits 32 bits.
pub open spec fn can_merge(a: Rect, b: Rect) -> bool {
    &&& a.x != b.x ==> a.y == b.y && a.width * 2 <= u32::MAX
    &&& a.x == b.x && a.y != b.y ==> a.height * 2 <= u32::MAX
}

/// The areas after window `closed` is merged into its buddy `buddy`: the
/// buddy's area grows over the closed window's, whose area is taken out.
pub open spec fn merged_areas(areas: Seq<WindowArea>, closed: usize, buddy: usize) -> Seq<WindowArea> {
    let bi = first_index(area_ids(areas), buddy);
    let ci = first_index(area_ids(areas), closed);
    areas.update(bi, WindowArea { id: buddy, rect: merge_spec(areas[bi].rect, areas[ci].rect) }).remove(ci)
}

/// The position of the first area of window `id`.
fn find_area(areas: &Vec<WindowArea>, id: usize) -> (r: Option<usize>)
    ensures
        match r {
            Some(i) => i < areas.len() && first_index(area_ids(areas@), id) == i,
            None => !area_ids(areas@).contains(id),
        },
{
    let ghost ids = area_ids(areas@);
    let mut i: usize = 0;
    while i < areas.len()
        invariant
            i <= areas.len(),
            ids == area_ids(areas@),
            forall|j: int| 0 <= j < i ==> ids[j] != id,
        decreases areas.len() - i,
    {
        if areas[i].id == id {
            proof {
                assert(ids[i as int] == id);
                lemma_first_index(ids, id, i as int);
            }
            return Some(i);
        }
        i = i + 1;
    }
    proof {
        assert forall|j: int| 0 <= j < ids.len() implies ids[j] != id by {}
    }
    None
}

/// The layout of a workspace.
pub struct WorkspaceLayout {
    pub focused_window_id: usize,
    /// Windows in the order in which the focus cycles through them
    pub window_orderer: Vec<usize>,
    /// Proxy-structure to determine buddies to be merged together
    pub buddy_tree_root: WindowNode,
}

impl WorkspaceLayout {
    /// Every window occurs once in the order, the focused window is one of
    /// them, and the buddy tree has exactly these windows as leaves.
    pub open spec fn wf(&self) -> bool {
        &&& self.window_orderer@.no_duplicates()
        &&& self.window_orderer@.contains(self.focused_window_id)
        &&& self.buddy_tree_root.leaves().to_multiset() == self.window_orderer@.to_multiset()
    }

    /// A workspace with a single window.
    pub fn new_with_single_window(window: usize, focused_window_id: usize) -> (r: Self)
        ensures
            r.window_orderer@ == seq![window],
            r.focused_window_id == focused_window_id,
            r.buddy_tree_root == WindowNode::Leaf(window),
            focused_window_id == window ==> r.wf(),
    {
        let mut window_orderer: Vec<usize> = Vec::new();
        window_orderer.push(window);
        let r = Self { focused_window_id, window_orderer, buddy_tree_root: WindowNode::new_leaf(window) };
        proof {
            assert(r.window_orderer@ =~= seq![window]);
            assert(r.buddy_tree_root.leaves() == seq![window]);
            if focused_window_id == window {
                assert(r.window_orderer@[0] == window);
            }
        }
        r
    }

    /// The number of windows.
    pub fn window_count(&self) -> (r: usize)
        ensures
            r == self.window_orderer.len(),
    {
        self.window_orderer.len()
    }

    /// Inserts the window `new_window_id` after the window `after`, in the
    /// order and as the buddy of `after`.
    pub fn insert_window(&mut self, new_window_id: usize, after: usize)
        requires
            old(self).wf(),
            old(self).window_orderer@.contains(after),
            !old(self).window_orderer@.contains(new_window_id),
        ensures
            final(self).wf(),
            final(self).focused_window_id == old(self).focused_window_id,
            final(self).buddy_tree_root == old(self).buddy_tree_root.inserted(after, new_window_id),
            final(self).window_orderer@ == old(self).window_orderer@.insert(
                first_index(old(self).window_orderer@, after) + 1,
                new_window_id,
            ),
    {
        let ghost old_leaves = self.buddy_tree_root.leaves();
        self.buddy_tree_root.insert_value(after, new_window_id);
        let i = match get_element_cursor_from_orderer(&self.window_orderer, after) {
            Some(i) => i,
            None => {
                proof {
                    assert(false);
                }
                return;
            },
        };
        self.window_orderer.insert(i + 1, new_window_id);
        proof {
            let s = old(self).window_orderer@;
            let t = self.window_orderer@;
            lemma_inserted_leaves(old(self).buddy_tree_root, after, new_window_id);
            lemma_no_dup_count(s, after);
            lemma_expand_multiset(old_leaves, after, new_window_id);
            assert(t.to_multiset() == s.to_multiset().insert(new_window_id));
            assert(t.no_duplicates()) by {
                assert forall|a: int, b: int| 0 <= a < t.len() && 0 <= b < t.len() && a != b implies t[a] != t[b] by {
                    if t[a] == new_window_id || t[b] == new_window_id {
                        if a == i + 1 {
                            assert(t[b] == s[if b < i + 1 { b } else { b - 1 }]);
                        } else if b == i + 1 {
                            assert(t[a] == s[if a < i + 1 { a } else { a - 1 }]);
                        } else {
                            assert(t[a] == s[if a < i + 1 { a } else { a - 1 }]);
                            assert(t[b] == s[if b < i + 1 { b } else { b - 1 }]);
                        }
                    } else {
                        let a2 = if a < i + 1 { a } else { a - 1 };
                        let b2 = if b < i + 1 { b } else { b - 1 };
                        assert(t[a] == s[a2]);
                        assert(t[b] == s[b2]);
                    }
                }
            }
            let fi = choose|k: int| 0 <= k < s.len() && s[k] == self.focused_window_id;
            assert(t[if fi < i + 1 { fi } else { fi + 1 }] == self.focused_window_id);
        }
    }

    /// Moves the focus to the next window in the order (cyclically).
    pub fn focus_next_window(&mut self)
        requires
            old(self).wf(),
        ensures
            final(self).wf(),
            final(self).focused_window_id == next_in_order(old(self).window_orderer@, old(self).focused_window_id),
            final(self).window_orderer@ == old(self).window_orderer@,
            final(self).buddy_tree_root == old(self).buddy_tree_root,
    {
        let i = match get_element_cursor_from_orderer(&self.window_orderer, self.focused_window_id) {
            Some(i) => i,
            None => {
                proof {
                    assert(false);
                }
                return;
            },
        };
        self.focused_window_id = if i + 1 < self.window_orderer.len() {
            self.window_orderer[i + 1]
        } else {
            self.window_orderer[0]
        };
    }

    /// Moves the focus to the previous window in the order (cyclically).
    pub fn focus_prev_window(&mut self)
        requires
            old(self).wf(),
        ensures
            final(self).wf(),
            final(self).focused_window_id == prev_in_order(old(self).window_orderer@, old(self).focused_window_id),
            final(self).window_orderer@ == old(self).window_orderer@,
            final(self).buddy_tree_root == old(self).buddy_tree_root,
    {
        let i = match get_element_cursor_from_orderer(&self.window_orderer, self.focused_window_id) {
            Some(i) => i,
            None => {
                proof {
                    assert(false);
                }
                return;
            },
        };
        self.focused_window_id = if i > 0 {
            self.window_orderer[i - 1]
        } else {
            self.window_orderer[self.window_orderer.len() - 1]
        };
    }

    /// Closes the focused window, unless it is the only one or has no buddy:
    /// its buddy takes over its area, and the focus moves to the next window.
    /// Returns the buddy when the window has been closed.
    pub fn close_focused_window(&mut self) -> (r: Option<usize>)
        requires
            old(self).wf(),
        ensures
            final(self).wf(),
            (old(self).window_orderer.len() == 1 || old(self).buddy_tree_root.sibling(old(self).focused_window_id) is None)
                ==> r is None && final(self).window_orderer@ == old(self).window_orderer@
                && final(self).focused_window_id == old(self).focused_window_id
                && final(self).buddy_tree_root == old(self).buddy_tree_root,
            (old(self).window_orderer.len() != 1 && old(self).buddy_tree_root.sibling(old(self).focused_window_id) is Some)
                ==> r == old(self).buddy_tree_root.sibling(old(self).focused_window_id)
                && final(self).buddy_tree_root == old(self).buddy_tree_root.removed(old(self).focused_window_id)
                && final(self).window_orderer@ == old(self).window_orderer@.remove(
                    first_index(old(self).window_orderer@, old(self).focused_window_id))
                && final(self).focused_window_id == next_in_order(old(self).window_orderer@, old(self).focused_window_id),
    {
        if self.window_orderer.len() == 1 {
            return None;
        }
        let buddy_id = match self.buddy_tree_root.get_sibling(self.focused_window_id) {
            Some(b) => b,
            None => return None,
        };
        let i = match get_element_cursor_from_orderer(&self.window_orderer, self.focused_window_id) {
            Some(i) => i,
            None => {
                proof {
                    assert(false);
                }
                return None;
            },
        };
        proof {
            lemma_removed_leaves(self.buddy_tree_root, self.focused_window_id);
        }
        self.buddy_tree_root.remove_leaf(self.focused_window_id);
        let new_focused_window_id = if i + 1 < self.window_orderer.len() {
            self.window_orderer[i + 1]
        } else {
            self.window_orderer[0]
        };
        self.window_orderer.remove(i);
        self.focused_window_id = new_focused_window_id;
        proof {
            let s = old(self).window_orderer@;
            let t = self.window_orderer@;
            assert(t.no_duplicates()) by {
                assert forall|a: int, b: int| 0 <= a < t.len() && 0 <= b < t.len() && a != b implies t[a] != t[b] by {
                    let a2 = if a < i { a } else { a + 1 };
                    let b2 = if b < i { b } else { b + 1 };
                    assert(t[a] == s[a2]);
                    assert(t[b] == s[b2]);
                }
            }
            let k = if i + 1 < s.len() { i + 1 } else { 0 };
            assert(k != i);
            assert(s[k] != s[i as int]);
            let k2 = if k < i { k } else { k - 1 };
            assert(t[k2] == s[k]);
        }
        Some(buddy_id)
    }

    /// Closes the focused window as [`Self::close_focused_window`] does, and
    /// lets its buddy take over its area: the buddy's area grows over the
    /// closed window's (see [`merge_spec`]) and the closed window's area
    /// goes.
    pub fn close_focused_window_merging(&mut self, areas: &mut Vec<WindowArea>) -> (r: Option<usize>)
        requires
            old(self).wf(),
            old(self).window_orderer.len() != 1 ==> match old(self).buddy_tree_root.sibling(old(self).focused_window_id) {
                Some(b) => {
                    &&& area_ids(old(areas)@).contains(old(self).focused_window_id)
                    &&& area_ids(old(areas)@).contains(b)
                    &&& can_merge(
                        old(areas)@[first_index(area_ids(old(areas)@), b)].rect,
                        old(areas)@[first_index(area_ids(old(areas)@), old(self).focused_window_id)].rect,
                    )
                },
                None => true,
            },
        ensures
            final(self).wf(),
            (old(self).window_orderer.len() == 1 || old(self).buddy_tree_root.sibling(old(self).focused_window_id) is None)
                ==> r is None && final(self).window_orderer@ == old(self).window_orderer@
                && final(self).focused_window_id == old(self).focused_window_id
                && final(self).buddy_tree_root == old(self).buddy_tree_root
                && final(areas)@ == old(areas)@,
            (old(self).window_orderer.len() != 1 && old(self).buddy_tree_root.sibling(old(self).focused_window_id) is Some)
                ==> r == old(self).buddy_tree_root.sibling(old(self).focused_window_id)
                && final(self).buddy_tree_root == old(self).buddy_tree_root.removed(old(self).focused_window_id)
                && final(self).window_orderer@ == old(self).window_orderer@.remove(
                    first_index(old(self).window_orderer@, old(self).focused_window_id))
                && final(self).focused_window_id == next_in_order(old(self).window_orderer@, old(self).focused_window_id)
                && final(areas)@ == merged_areas(old(areas)@, old(self).focused_window_id, r.unwrap()),
    {
        let closed = self.focused_window_id;
        let r = self.close_focused_window();
        match r {
            None => None,
            Some(b) => {
                let ci = match find_area(areas, closed) {
                    Some(i) => i,
                    None => return r,
                };
                let bi = match find_area(areas, b) {
                    Some(i) => i,
                    None => return r,
                };
                let merged = merge_rects(areas[bi].rect, areas[ci].rect);
                areas.set(bi, WindowArea { id: b, rect: merged });
                areas.remove(ci);
                r
            },
        }
    }

    /// Moves the focused window one place forward in the order, exchanging
    /// it with the next window (the last window moves to the second place)
    /// in the order and in the buddy tree. Returns the window it changed
    /// places with, or `None` when it is the only window.
    pub fn move_focused_window_forward(&mut self) -> (r: Option<usize>)
        requires
            old(self).wf(),
        ensures
            final(self).wf(),
            final(self).focused_window_id == old(self).focused_window_id,
            old(self).window_orderer.len() == 1 ==> r is None && final(self).window_orderer@ == old(self).window_orderer@
                && final(self).buddy_tree_root == old(self).buddy_tree_root,
            old(self).window_orderer.len() != 1 ==> {
                let s = old(self).window_orderer@;
                let i = first_index(s, old(self).focused_window_id);
                &&& r == Some(forward_partner(s, i))
                &&& final(self).window_orderer@ == moved_forward(s, i)
                &&& final(self).buddy_tree_root.same_shape(old(self).buddy_tree_root)
                &&& final(self).buddy_tree_root.leaves() == swapped_leaves(
                    old(self).buddy_tree_root.leaves(),
                    old(self).focused_window_id,
                    forward_partner(s, i),
                )
            },
    {
        let n = self.window_orderer.len();
        if n == 1 {
            return None;
        }
        let i = match get_element_cursor_from_orderer(&self.window_orderer, self.focused_window_id) {
            Some(i) => i,
            None => {
                proof {
                    assert(false);
                }
                return None;
            },
        };
        let focused = self.window_orderer.remove(i);
        let swapped_id;
        if i < self.window_orderer.len() {
            swapped_id = self.window_orderer[i];
            self.window_orderer.insert(i + 1, focused);
        } else {
            swapped_id = self.window_orderer[0];
            self.window_orderer.insert(1, focused);
        }
        proof {
            let s = old(self).window_orderer@;
            let t = self.window_orderer@;
            assert(t =~= moved_forward(s, i as int));
            lemma_reinsert_multiset(s, i as int, if i + 1 < s.len() { i as int + 1 } else { 1 });
            lemma_permutation_keeps_wf(s, t);
            lemma_no_dup_count(s, focused);
            lemma_no_dup_count(s, swapped_id);
            assert(self.buddy_tree_root.leaves().to_multiset().count(focused) <= 1);
            assert(self.buddy_tree_root.leaves().to_multiset().count(swapped_id) <= 1);
            lemma_swap_twice(self.buddy_tree_root.leaves(), focused, swapped_id);
            assert(t.contains(focused)) by {
                assert(t[if i + 1 < s.len() { i + 1 } else { 1 }] == focused);
            }
        }
        self.buddy_tree_root.swap_values(self.focused_window_id, swapped_id);
        Some(swapped_id)
    }

    /// Moves the focused window one place backward in the order, exchanging
    /// it with the previous window (the first window moves to the
    /// second-to-last place) in the order and in the buddy tree. Returns the
    /// window it changed places with, or `None` when it is the only window.
    pub fn move_focused_window_backward(&mut self) -> (r: Option<usize>)
        requires
            old(self).wf(),
        ensures
            final(self).wf(),
            final(self).focused_window_id == old(self).focused_window_id,
            old(self).window_orderer.len() == 1 ==> r is None && final(self).window_orderer@ == old(self).window_orderer@
                && final(self).buddy_tree_root == old(self).buddy_tree_root,
            old(self).window_orderer.len() != 1 ==> {
                let s = old(self).window_orderer@;
                let i = first_index(s, old(self).focused_window_id);
                &&& r == Some(backward_partner(s, i))
                &&& final(self).window_orderer@ == moved_backward(s, i)
                &&& final(self).buddy_tree_root.same_shape(old(self).buddy_tree_root)
                &&& final(self).buddy_tree_root.leaves() == swapped_leaves(
                    old(self).buddy_tree_root.leaves(),
                    old(self).focused_window_id,
                    backward_partner(s, i),
                )
            },
    {
        let n = self.window_orderer.len();
        if n == 1 {
            return None;
        }
        let i = match get_element_cursor_from_orderer(&self.window_orderer, self.focused_window_id) {
            Some(i) => i,
            None => {
                proof {
                    assert(false);
                }
                return None;
            },
        };
        let focused = self.window_orderer.remove(i);
        let swapped_id;
        if i > 0 {
            swapped_id = self.window_orderer[i - 1];
            self.window_orderer.insert(i - 1, focused);
        } else {
            let last = self.window_orderer.len() - 1;
            swapped_id = self.window_orderer[last];
            self.window_orderer.insert(last, focused);
        }
        proof {
            let s = old(self).window_orderer@;
            let t = self.window_orderer@;
            assert(t =~= moved_backward(s, i as int));
            lemma_reinsert_multiset(s, i as int, if i > 0 { i as int - 1 } else { s.len() - 2 });
            lemma_permutation_keeps_wf(s, t);
            lemma_no_dup_count(s, focused);
            lemma_no_dup_count(s, swapped_id);
            lemma_swap_twice(self.buddy_tree_root.leaves(), focused, swapped_id);
            assert(t.contains(focused)) by {
                assert(t[if i > 0 { i - 1 } else { s.len() - 2 }] == focused);
            }
        }
        self.buddy_tree_root.swap_values(self.focused_window_id, swapped_id);
        Some(swapped_id)
    }
}

/// In a sequence without duplicates every element occurs at most once.
proof fn lemma_no_dup_count(s: Seq<usize>, x: usize)
    requires
        s.no_duplicates(),
    ensures
        s.to_multiset().count(x) <= 1,
    decreases s.len(),
{
    broadcast use vstd::multiset::group_multiset_axioms;

    if s.len() > 0 {
        let t = s.drop_last();
        assert(t.no_duplicates());
        lemma_no_dup_count(t, x);
        assert(s =~= t.push(s.last()));
        if s.last() == x {
            assert(!t.contains(x)) by {
                if t.contains(x) {
                    let k = choose|k: int| 0 <= k < t.len() && t[k] == x;
                    assert(s[k] == s[s.len() - 1]);
                }
            }
        }
    }
}

/// Taking an element out and putting it back elsewhere keeps the multiset.
proof fn lemma_reinsert_multiset(s: Seq<usize>, i: int, j: int)
    requires
        0 <= i < s.len(),
        0 <= j < s.len(),
    ensures
        s.remove(i).insert(j, s[i]).to_multiset() == s.to_multiset(),
{
    broadcast use vstd::multiset::group_multiset_axioms;

    let r = s.remove(i);
    assert(r.to_multiset() == s.to_multiset().remove(s[i]));
    assert(r.insert(j, s[i]).to_multiset() == r.to_multiset().insert(s[i]));
    assert(s.to_multiset().count(s[i]) > 0) by {
        assert(s.contains(s[i]));
    }
    assert(s.to_multiset().remove(s[i]).insert(s[i]) =~= s.to_multiset());
}

/// A permutation of a sequence without duplicates has none either.
proof fn lemma_permutation_keeps_wf(s: Seq<usize>, t: Seq<usize>)
    requires
        s.no_duplicates(),
        t.to_multiset() == s.to_multiset(),
    ensures
        t.no_duplicates(),
{
    broadcast use vstd::multiset::group_multiset_axioms;

    assert forall|a: int, b: int| 0 <= a < t.len() && 0 <= b < t.len() && a != b implies t[a] != t[b] by {
        if t[a] == t[b] {
            lemma_no_dup_count(s, t[a]);
            let r = t.remove(a);
            assert(r.to_multiset() == t.to_multiset().remove(t[a]));
            let b2 = if b < a { b } else { b - 1 };
            assert(r[b2] == t[a]);
            assert(r.contains(t[a]));
            assert(r.to_multiset().count(t[a]) > 0);
        }
    }
}

proof fn lemma_expand_absent(s: Seq<usize>, a: usize, n: usize)
    requires
        !s.contains(a),
    ensures
        expand_leaves(s, a, n) == s,
    decreases s.len(),
{
    if s.len() > 0 {
        assert(s[0] != a);
        assert(!s.drop_first().contains(a)) by {
            if s.drop_first().contains(a) {
                let k = choose|k: int| 0 <= k < s.drop_first().len() && s.drop_first()[k] == a;
                assert(s[k + 1] == a);
            }
        }
        lemma_expand_absent(s.drop_first(), a, n);
        assert(seq![s[0]] + s.drop_first() =~= s);
    } else {
        assert(expand_leaves(s, a, n) =~= s);
    }
}

/// Splitting the only leaf `a` adds exactly one `n` to the leaves.
proof fn lemma_expand_multiset(s: Seq<usize>, a: usize, n: usize)
    requires
        s.to_multiset().count(a) == 1,
    ensures
        expand_leaves(s, a, n).to_multiset() == s.to_multiset().insert(n),
    decreases s.len(),
{
    broadcast use vstd::multiset::group_multiset_axioms;

    let t = s.drop_first();
    assert(s =~= seq![s[0]] + t);
    lemma_multiset_commutative(seq![s[0]], t);
    lemma_single(s[0]);
    if s[0] == a {
        assert(t.to_multiset().count(a) == 0);
        assert(!t.contains(a));
        lemma_expand_absent(t, a, n);
        lemma_single(n);
        assert(seq![a, n] =~= seq![a] + seq![n]);
        lemma_multiset_commutative(seq![a], seq![n]);
        lemma_multiset_commutative(seq![a, n], t);
        assert(expand_leaves(s, a, n).to_multiset() =~= s.to_multiset().insert(n));
    } else {
        assert(t.to_multiset().count(a) == 1);
        lemma_expand_multiset(t, a, n);
        lemma_multiset_commutative(seq![s[0]], expand_leaves(t, a, n));
        assert(expand_leaves(s, a, n).to_multiset() =~= s.to_multiset().insert(n));
    }
}

proof fn lemma_single(v: usize)
    ensures
        seq![v].to_multiset() =~= Multiset::singleton(v),
{
    broadcast use vstd::multiset::group_multiset_axioms;

    let e = Seq::<usize>::empty();
    vstd::multiset::lemma_multiset_empty_len(e.to_multiset());
    assert(seq![v] =~= e.push(v));
}

/// Moving the focus forward and then back returns it to the window it was
/// on.
pub proof fn lemma_focus_next_then_prev(s: Seq<usize>, f: usize)
    requires
        s.no_duplicates(),
        s.contains(f),
    ensures
        prev_in_order(s, next_in_order(s, f)) == f,
        next_in_order(s, prev_in_order(s, f)) == f,
{
    let i = choose|k: int| 0 <= k < s.len() && s[k] == f;
    lemma_first_index(s, f, i);
    let n = next_in_order(s, f);
    let ni = if i + 1 < s.len() { i + 1 } else { 0 };
    lemma_first_index(s, n, ni);
    let p = prev_in_order(s, f);
    let pi = if i > 0 { i - 1 } else { s.len() - 1 };
    lemma_first_index(s, p, pi);
}

/// Moving a window forward and then back restores the order, unless it is
/// the last window (which wraps around to the front).
pub proof fn lemma_move_forward_then_backward(s: Seq<usize>, i: int)
    requires
        s.no_duplicates(),
        0 <= i,
        i + 1 < s.len(),
    ensures
        moved_backward(moved_forward(s, i), i + 1) == s,
        backward_partner(moved_forward(s, i), i + 1) == forward_partner(s, i),
{
    assert(moved_backward(moved_forward(s, i), i + 1) =~= s);
}

} // verus!
