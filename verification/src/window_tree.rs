//! The buddy tree of a workspace: a binary tree whose leaves are window ids.
//!
//! Two windows are buddies when they are the two leaf children of one twig;
//! closing a window hands its area to its buddy.
use vstd::prelude::*;
use vstd::multiset::Multiset;
use vstd::seq_lib::lemma_multiset_commutative;

verus! {

/// Used to determine and manage buddy-IDs of AppWindows
#[derive(Debug)]
pub enum WindowNode {
    Leaf(usize),
    Twig { left: Box<WindowNode>, right: Box<WindowNode> },
}

/// Replaces every occurrence of `old_value` in `s` by `old_value, new_value`.
pub open spec fn expand_leaves(s: Seq<usize>, old_value: usize, new_value: usize) -> Seq<usize>
    decreases s.len(),
{
    if s.len() == 0 {
        Seq::empty()
    } else {
        let head = if s[0] == old_value { seq![old_value, new_value] } else { seq![s[0]] };
        head + expand_leaves(s.drop_first(), old_value, new_value)
    }
}

/// The index of the last occurrence of `v` in `s`, or `-1`.
pub open spec fn last_index_of(s: Seq<usize>, v: usize) -> int
    decreases s.len(),
{
    if s.len() == 0 {
        -1
    } else if s.last() == v {
        s.len() - 1
    } else {
        last_index_of(s.drop_last(), v)
    }
}

/// The leaf sequence that results from exchanging the last leaf holding `a`
/// with the last leaf holding `b`; unchanged unless both exist and `a != b`.
pub open spec fn swapped_leaves(s: Seq<usize>, a: usize, b: usize) -> Seq<usize> {
    let i = last_index_of(s, a);
    let j = last_index_of(s, b);
    if a != b && i >= 0 && j >= 0 {
        s.update(i, b).update(j, a)
    } else {
        s
    }
}

impl WindowNode {
    /// The window ids of the leaves, from left to right.
    pub open spec fn leaves(self) -> Seq<usize>
        decreases self,
    {
        match self {
            WindowNode::Leaf(v) => seq![v],
            WindowNode::Twig { left, right } => left.leaves() + right.leaves(),
        }
    }

    /// Whether two trees have the same shape (only the leaf values may differ).
    pub open spec fn same_shape(self, other: WindowNode) -> bool
        decreases self,
    {
        match (self, other) {
            (WindowNode::Leaf(_), WindowNode::Leaf(_)) => true,
            (WindowNode::Twig { left: l1, right: r1 }, WindowNode::Twig { left: l2, right: r2 }) => {
                l1.same_shape(*l2) && r1.same_shape(*r2)
            },
            _ => false,
        }
    }

    /// The tree after `insert_value(old_value, new_value)`.
    pub open spec fn inserted(self, old_value: usize, new_value: usize) -> WindowNode
        decreases self,
    {
        match self {
            WindowNode::Leaf(v) => if v == old_value {
                WindowNode::Twig {
                    left: Box::new(WindowNode::Leaf(old_value)),
                    right: Box::new(WindowNode::Leaf(new_value)),
                }
            } else {
                WindowNode::Leaf(v)
            },
            WindowNode::Twig { left, right } => WindowNode::Twig {
                left: Box::new(left.inserted(old_value, new_value)),
                right: Box::new(right.inserted(old_value, new_value)),
            },
        }
    }

    /// The buddy of `value`: the other child of the first twig (in depth-first,
    /// left-to-right order) whose two children are leaves and one of them holds
    /// `value`.
    pub open spec fn sibling(self, value: usize) -> Option<usize>
        decreases self,
    {
        match self {
            WindowNode::Leaf(_) => None,
            WindowNode::Twig { left, right } => match (*left, *right) {
                (WindowNode::Leaf(lv), WindowNode::Leaf(rv)) => if lv == value {
                    Some(rv)
                } else if rv == value {
                    Some(lv)
                } else {
                    None
                },
                _ => match left.sibling(value) {
                    Some(s) => Some(s),
                    None => right.sibling(value),
                },
            },
        }
    }

    /// The tree after removing the leaf `value` from the twig that `sibling`
    /// finds: that twig is replaced by the buddy leaf.
    pub open spec fn removed(self, value: usize) -> WindowNode
        decreases self,
    {
        match self {
            WindowNode::Leaf(v) => WindowNode::Leaf(v),
            WindowNode::Twig { left, right } => match (*left, *right) {
                (WindowNode::Leaf(lv), WindowNode::Leaf(rv)) => if lv == value {
                    WindowNode::Leaf(rv)
                } else if rv == value {
                    WindowNode::Leaf(lv)
                } else {
                    self
                },
                _ => if left.sibling(value) is Some {
                    WindowNode::Twig { left: Box::new(left.removed(value)), right }
                } else {
                    WindowNode::Twig { left, right: Box::new(right.removed(value)) }
                },
            },
        }
    }

    /// Whether some twig of the tree has the two leaf children `a` and `b`,
    /// in either order.
    pub open spec fn has_buddy_pair(self, a: usize, b: usize) -> bool
        decreases self,
    {
        match self {
            WindowNode::Leaf(_) => false,
            WindowNode::Twig { left, right } => {
                ||| (*left == WindowNode::Leaf(a) && *right == WindowNode::Leaf(b))
                ||| (*left == WindowNode::Leaf(b) && *right == WindowNode::Leaf(a))
                ||| left.has_buddy_pair(a, b)
                ||| right.has_buddy_pair(a, b)
            },
        }
    }

    pub fn new_leaf(value: usize) -> (r: Self)
        ensures
            r == WindowNode::Leaf(value),
    {
        WindowNode::Leaf(value)
    }

    pub fn new_twig(left: WindowNode, right: WindowNode) -> (r: Self)
        ensures
            r == (WindowNode::Twig { left: Box::new(left), right: Box::new(right) }),
    {
        WindowNode::Twig { left: Box::new(left), right: Box::new(right) }
    }

    /// Splits every leaf holding `old_value` into a twig with the leaves
    /// `old_value` and `new_value`.
    pub fn insert_value(&mut self, old_value: usize, new_value: usize)
        ensures
            *final(self) == old(self).inserted(old_value, new_value),
        decreases *old(self),
    {
        match self {
            WindowNode::Leaf(value) => {
                if *value == old_value {
                    *self = WindowNode::new_twig(
                        WindowNode::new_leaf(old_value),
                        WindowNode::new_leaf(new_value),
                    );
                }
            },
            WindowNode::Twig { left, right } => {
                left.insert_value(old_value, new_value);
                right.insert_value(old_value, new_value);
            },
        }
    }


    /// The buddy of `value`, or `None` when no twig has `value` and another
    /// leaf as its two children.
    pub fn get_sibling(&self, value: usize) -> (r: Option<usize>)
        ensures
            r == self.sibling(value),
        decreases self,
    {
        match self {
            WindowNode::Twig { left, right } => {
                if let WindowNode::Leaf(left_value) = &**left {
                    if let WindowNode::Leaf(right_value) = &**right {
                        if *left_value == value {
                            return Some(*right_value);
                        } else if *right_value == value {
                            return Some(*left_value);
                        } else {
                            return None;
                        }
                    }
                }
                if let Some(sibling) = left.get_sibling(value) {
                    return Some(sibling);
                }
                if let Some(sibling) = right.get_sibling(value) {
                    return Some(sibling);
                }
                None
            },
            WindowNode::Leaf(_) => None,
        }
    }

    /// Closing a window that has no buddy changes nothing: without a buddy
    /// for `value`, removing `value` leaves the tree as it is.
    pub proof fn lemma_removed_without_sibling(self, value: usize)
        requires
            self.sibling(value) is None,
        ensures
            self.removed(value) == self,
        decreases self,
    {
        match self {
            WindowNode::Leaf(_) => {},
            WindowNode::Twig { left, right } => match (*left, *right) {
                (WindowNode::Leaf(_), WindowNode::Leaf(_)) => {},
                _ => {
                    left.lemma_removed_without_sibling(value);
                    right.lemma_removed_without_sibling(value);
                },
            },
        }
    }

    /// Removes the leaf `value` together with its twig, which is replaced by
    /// the buddy leaf. Returns whether the leaf has been removed, which is the
    /// case exactly when `value` has a buddy.
    pub fn remove_leaf(&mut self, value: usize) -> (is_removed: bool)
        ensures
            is_removed == (old(self).sibling(value) is Some),
            *final(self) == old(self).removed(value),
        decreases *old(self),
    {
        let mut pair: Option<(usize, usize)> = None;
        if let WindowNode::Twig { left, right } = &*self {
            if let WindowNode::Leaf(left_value) = &**left {
                if let WindowNode::Leaf(right_value) = &**right {
                    pair = Some((*left_value, *right_value));
                }
            }
        }
        if let Some((left_value, right_value)) = pair {
            if left_value == value {
                *self = WindowNode::Leaf(right_value);
                return true;
            } else if right_value == value {
                *self = WindowNode::Leaf(left_value);
                return true;
            } else {
                return false;
            }
        }
        match self {
            WindowNode::Twig { left, right } => {
                proof {
                    if left.sibling(value) is None {
                        left.lemma_removed_without_sibling(value);
                    }
                    if right.sibling(value) is None {
                        right.lemma_removed_without_sibling(value);
                    }
                }
                let is_removed = left.remove_leaf(value);
                if !is_removed {
                    right.remove_leaf(value)
                } else {
                    true
                }
            },
            WindowNode::Leaf(_) => false,
        }
    }

    proof fn lemma_leaves_nonempty(self)
        ensures
            self.leaves().len() >= 1,
        decreases self,
    {
        if let WindowNode::Twig { left, right } = self {
            left.lemma_leaves_nonempty();
            right.lemma_leaves_nonempty();
        }
    }

    /// Appends the leaves of the tree, from left to right, to `out`.
    fn collect_leaves(&self, out: &mut Vec<usize>)
        ensures
            final(out)@ == old(out)@ + self.leaves(),
        decreases self,
    {
        match self {
            WindowNode::Leaf(v) => {
                out.push(*v);
            },
            WindowNode::Twig { left, right } => {
                left.collect_leaves(out);
                right.collect_leaves(out);
                proof {
                    assert(old(out)@ + left.leaves() + right.leaves() =~= old(out)@ + (left.leaves() + right.leaves()));
                }
            },
        }
    }

    /// Overwrites the leaves, from left to right, with `vals[pos..]` and
    /// returns the position after the last value used.
    fn relabel(&mut self, vals: &Vec<usize>, pos: usize) -> (next: usize)
        requires
            pos + old(self).leaves().len() <= vals.len(),
        ensures
            next == pos + old(self).leaves().len(),
            final(self).same_shape(*old(self)),
            final(self).leaves() == vals@.subrange(pos as int, next as int),
        decreases *old(self),
    {
        match self {
            WindowNode::Leaf(v) => {
                *v = vals[pos];
                pos + 1
            },
            WindowNode::Twig { left, right } => {
                let mid = left.relabel(vals, pos);
                let next = right.relabel(vals, mid);
                proof {
                    assert(vals@.subrange(pos as int, next as int) =~= vals@.subrange(
                        pos as int,
                        mid as int,
                    ) + vals@.subrange(mid as int, next as int));
                }
                next
            },
        }
    }

    /// The positions, in the leaf order, of the last leaf holding `value1` and
    /// of the last leaf holding `value2` (when `value2 != value1`).
    pub fn find_nodes_with_values(&self, value1: usize, value2: usize) -> (r: (
        Option<usize>,
        Option<usize>,
    ))
        ensures
            r.0 == (if last_index_of(self.leaves(), value1) >= 0 {
                Some(last_index_of(self.leaves(), value1) as usize)
            } else {
                None
            }),
            r.1 == (if value1 != value2 && last_index_of(self.leaves(), value2) >= 0 {
                Some(last_index_of(self.leaves(), value2) as usize)
            } else {
                None
            }),
    {
        let mut leaves: Vec<usize> = Vec::new();
        self.collect_leaves(&mut leaves);
        assert(leaves@ =~= self.leaves());
        let mut node1: Option<usize> = None;
        let mut node2: Option<usize> = None;
        let mut k: usize = 0;
        while k < leaves.len()
            invariant
                k <= leaves.len(),
                leaves@ == self.leaves(),
                node1 == (if last_index_of(leaves@.take(k as int), value1) >= 0 {
                    Some(last_index_of(leaves@.take(k as int), value1) as usize)
                } else {
                    None
                }),
                node2 == (if value1 != value2 && last_index_of(leaves@.take(k as int), value2)
                    >= 0 {
                    Some(last_index_of(leaves@.take(k as int), value2) as usize)
                } else {
                    None
                }),
            decreases leaves.len() - k,
        {
            proof {
                lemma_last_index_take_step(leaves@, k as int, value1);
                lemma_last_index_take_step(leaves@, k as int, value2);
            }
            if leaves[k] == value1 {
                node1 = Some(k);
            } else if leaves[k] == value2 {
                node2 = Some(k);
            }
            k = k + 1;
        }
        assert(leaves@.take(k as int) =~= leaves@);
        (node1, node2)
    }

    /// Exchanges the last leaf holding `value1` with the last leaf holding
    /// `value2`; does nothing unless both exist (and differ).
    pub fn swap_values(&mut self, value1: usize, value2: usize)
        ensures
            final(self).same_shape(*old(self)),
            final(self).leaves() == swapped_leaves(old(self).leaves(), value1, value2),
    {
        let (node1, node2) = self.find_nodes_with_values(value1, value2);
        if let (Some(n1), Some(n2)) = (node1, node2) {
            let mut leaves: Vec<usize> = Vec::new();
            self.collect_leaves(&mut leaves);
            assert(leaves@ =~= self.leaves());
            proof {
                lemma_last_index_bounds(leaves@, value1);
                lemma_last_index_bounds(leaves@, value2);
            }
            leaves.set(n1, value2);
            leaves.set(n2, value1);
            let _ = self.relabel(&leaves, 0);
            assert(leaves@.subrange(0, leaves@.len() as int) =~= leaves@);
        } else {
            proof {
                self.lemma_same_shape_refl();
            }
        }
    }

    proof fn lemma_same_shape_refl(self)
        ensures
            self.same_shape(self),
        decreases self,
    {
        if let WindowNode::Twig { left, right } = self {
            left.lemma_same_shape_refl();
            right.lemma_same_shape_refl();
        }
    }
}

proof fn lemma_expand_add(a: Seq<usize>, b: Seq<usize>, old_value: usize, new_value: usize)
    ensures
        expand_leaves(a + b, old_value, new_value) == expand_leaves(a, old_value, new_value)
            + expand_leaves(b, old_value, new_value),
    decreases a.len(),
{
    if a.len() == 0 {
        assert(a + b =~= b);
        assert(expand_leaves(a, old_value, new_value) =~= Seq::<usize>::empty());
        assert(Seq::<usize>::empty() + expand_leaves(b, old_value, new_value) =~= expand_leaves(
            b,
            old_value,
            new_value,
        ));
    } else {
        assert((a + b).drop_first() =~= a.drop_first() + b);
        assert((a + b)[0] == a[0]);
        lemma_expand_add(a.drop_first(), b, old_value, new_value);
        let head = if a[0] == old_value { seq![old_value, new_value] } else { seq![a[0]] };
        assert(head + (expand_leaves(a.drop_first(), old_value, new_value) + expand_leaves(
            b,
            old_value,
            new_value,
        )) =~= (head + expand_leaves(a.drop_first(), old_value, new_value)) + expand_leaves(
            b,
            old_value,
            new_value,
        ));
    }
}

/// Splitting a window: the leaves after `insert_value(old, new)` are the old
/// leaves with `new` placed right after every `old`.
pub proof fn lemma_inserted_leaves(t: WindowNode, old_value: usize, new_value: usize)
    ensures
        t.inserted(old_value, new_value).leaves() == expand_leaves(
            t.leaves(),
            old_value,
            new_value,
        ),
    decreases t,
{
    match t {
        WindowNode::Leaf(v) => {
            let s = seq![v];
            assert(s.drop_first() =~= Seq::<usize>::empty());
            assert(expand_leaves(Seq::<usize>::empty(), old_value, new_value) =~= Seq::<
                usize,
            >::empty());
            if v == old_value {
                let tw = WindowNode::Twig {
                    left: Box::new(WindowNode::Leaf(old_value)),
                    right: Box::new(WindowNode::Leaf(new_value)),
                };
                assert(t.inserted(old_value, new_value) == tw);
                assert(WindowNode::Leaf(old_value).leaves() == seq![old_value]);
                assert(WindowNode::Leaf(new_value).leaves() == seq![new_value]);
                assert(tw.leaves() == seq![old_value] + seq![new_value]);
                assert(t.inserted(old_value, new_value).leaves() =~= seq![old_value, new_value]);
                assert(seq![old_value, new_value] + Seq::<usize>::empty() =~= seq![
                    old_value,
                    new_value,
                ]);
            } else {
                assert(seq![v] + Seq::<usize>::empty() =~= seq![v]);
            }
        },
        WindowNode::Twig { left, right } => {
            lemma_inserted_leaves(*left, old_value, new_value);
            lemma_inserted_leaves(*right, old_value, new_value);
            lemma_expand_add(left.leaves(), right.leaves(), old_value, new_value);
        },
    }
}

/// `get_sibling` is exact: it names a buddy of `value` whenever `value` has
/// one, and what it names is a buddy of `value`.
pub proof fn lemma_sibling_is_buddy(t: WindowNode, value: usize)
    ensures
        t.sibling(value) matches Some(s) ==> t.has_buddy_pair(value, s),
        forall|s: usize| #[trigger] t.has_buddy_pair(value, s) ==> t.sibling(value) is Some,
    decreases t,
{
    match t {
        WindowNode::Leaf(_) => {},
        WindowNode::Twig { left, right } => {
            lemma_sibling_is_buddy(*left, value);
            lemma_sibling_is_buddy(*right, value);
            assert forall|s: usize| #[trigger] t.has_buddy_pair(value, s) implies t.sibling(
                value,
            ) is Some by {
                if left.has_buddy_pair(value, s) {
                    assert(left.sibling(value) is Some);
                }
                if right.has_buddy_pair(value, s) {
                    assert(right.sibling(value) is Some);
                }
            }
        },
    }
}

/// A value that is not a leaf has no buddy, and inserting next to a value
/// that is not a leaf changes nothing.
proof fn lemma_absent_value(t: WindowNode, value: usize, other: usize)
    requires
        !t.leaves().contains(value),
    ensures
        t.sibling(value) is None,
        t.inserted(value, other) == t,
    decreases t,
{
    match t {
        WindowNode::Leaf(v) => {
            assert(t.leaves()[0] == v);
        },
        WindowNode::Twig { left, right } => {
            assert forall|i: int| 0 <= i < left.leaves().len() implies left.leaves()[i]
                != value by {
                assert(t.leaves()[i] == left.leaves()[i]);
            }
            assert forall|i: int| 0 <= i < right.leaves().len() implies right.leaves()[i]
                != value by {
                assert(t.leaves()[left.leaves().len() + i] == right.leaves()[i]);
            }
            lemma_absent_value(*left, value, other);
            lemma_absent_value(*right, value, other);
        },
    }
}

/// Closing a window: when `value` has a buddy, removing it takes exactly one
/// `value` out of the leaves and keeps every other leaf.
pub proof fn lemma_removed_leaves(t: WindowNode, value: usize)
    requires
        t.sibling(value) is Some,
    ensures
        t.removed(value).leaves().to_multiset() == t.leaves().to_multiset().remove(value),
        t.leaves().to_multiset().count(value) >= 1,
    decreases t,
{
    broadcast use vstd::multiset::group_multiset_axioms;

    match t {
        WindowNode::Leaf(_) => {},
        WindowNode::Twig { left, right } => {
            lemma_multiset_commutative(left.leaves(), right.leaves());
            match (*left, *right) {
                (WindowNode::Leaf(lv), WindowNode::Leaf(rv)) => {
                    lemma_singleton_multiset(lv);
                    lemma_singleton_multiset(rv);
                    assert(t.leaves().to_multiset() =~= Multiset::singleton(lv).add(
                        Multiset::singleton(rv),
                    ));
                    if lv == value {
                        assert(t.leaves().to_multiset().remove(value) =~= Multiset::singleton(
                            rv,
                        ));
                    } else {
                        assert(t.leaves().to_multiset().remove(value) =~= Multiset::singleton(
                            lv,
                        ));
                    }
                },
                _ => {
                    if left.sibling(value) is Some {
                        lemma_removed_leaves(*left, value);
                        lemma_multiset_commutative(left.removed(value).leaves(), right.leaves());
                        assert(t.removed(value).leaves().to_multiset() =~= t.leaves().to_multiset().remove(
                            value,
                        ));
                    } else {
                        lemma_removed_leaves(*right, value);
                        lemma_multiset_commutative(left.leaves(), right.removed(value).leaves());
                        assert(t.removed(value).leaves().to_multiset() =~= t.leaves().to_multiset().remove(
                            value,
                        ));
                    }
                },
            }
        },
    }
}

/// Closing a freshly split window restores the layout: after
/// `insert_value(old, new)`, where `old` is a leaf exactly once and `new` is
/// not a leaf, the buddy of `new` is `old` and removing `new` gives back the
/// original tree.
pub proof fn lemma_split_then_close(t: WindowNode, old_value: usize, new_value: usize)
    requires
        t.leaves().to_multiset().count(old_value) == 1,
        !t.leaves().contains(new_value),
    ensures
        t.inserted(old_value, new_value).sibling(new_value) == Some(old_value),
        t.inserted(old_value, new_value).removed(new_value) == t,
    decreases t,
{
    broadcast use vstd::multiset::group_multiset_axioms;
    broadcast use vstd::seq_lib::group_to_multiset_ensures;

    match t {
        WindowNode::Leaf(v) => {
            assert(t.leaves() =~= Seq::<usize>::empty().push(v));
            assert(t.leaves()[0] == v);
        },
        WindowNode::Twig { left, right } => {
            lemma_multiset_commutative(left.leaves(), right.leaves());
            assert forall|i: int| 0 <= i < left.leaves().len() implies left.leaves()[i]
                != new_value by {
                assert(t.leaves()[i] == left.leaves()[i]);
            }
            assert forall|i: int| 0 <= i < right.leaves().len() implies right.leaves()[i]
                != new_value by {
                assert(t.leaves()[left.leaves().len() + i] == right.leaves()[i]);
            }
            let l2 = left.inserted(old_value, new_value);
            let r2 = right.inserted(old_value, new_value);
            if left.leaves().to_multiset().count(old_value) == 1 {
                assert(right.leaves().to_multiset().count(old_value) == 0);
                assert(!right.leaves().contains(old_value));
                lemma_absent_value(*right, old_value, new_value);
                lemma_absent_value(*right, new_value, old_value);
                lemma_split_then_close(*left, old_value, new_value);
                // the left child now is a twig, so the leaf-pair case does not apply
                match *left {
                    WindowNode::Leaf(lv) => {
                        assert(left.leaves()[0] == lv);
                        assert(lv == old_value);
                    },
                    _ => {},
                }
            } else {
                assert(left.leaves().to_multiset().count(old_value) == 0);
                assert(!left.leaves().contains(old_value));
                lemma_absent_value(*left, old_value, new_value);
                lemma_absent_value(*left, new_value, old_value);
                lemma_split_then_close(*right, old_value, new_value);
                match *right {
                    WindowNode::Leaf(rv) => {
                        assert(right.leaves()[0] == rv);
                        assert(rv == old_value);
                    },
                    _ => {},
                }
            }
        },
    }
}

/// Moving a window forward and back: when `a` and `b` each occur once,
/// exchanging them twice gives back the leaves, and an exchange keeps the
/// multiset of leaves.
pub proof fn lemma_swap_twice(s: Seq<usize>, a: usize, b: usize)
    requires
        s.to_multiset().count(a) <= 1,
        s.to_multiset().count(b) <= 1,
    ensures
        swapped_leaves(swapped_leaves(s, a, b), a, b) == s,
        swapped_leaves(s, a, b).to_multiset() == s.to_multiset(),
{
    broadcast use vstd::seq_lib::group_to_multiset_ensures;

    lemma_last_index_bounds(s, a);
    lemma_last_index_bounds(s, b);
    let i = last_index_of(s, a);
    let j = last_index_of(s, b);
    if a != b && i >= 0 && j >= 0 {
        let t = s.update(i, b).update(j, a);
        lemma_last_index_bounds(t, a);
        lemma_last_index_bounds(t, b);
        lemma_unique_index(s, a, i);
        lemma_unique_index(s, b, j);
        // in t, `a` sits only at j and `b` only at i
        assert forall|k: int| 0 <= k < t.len() && k != j implies t[k] != a by {
            if k != i {
                assert(t[k] == s[k]);
            }
        }
        assert forall|k: int| 0 <= k < t.len() && k != i implies t[k] != b by {
            if k != j {
                assert(t[k] == s[k]);
            }
        }
        lemma_last_index_is(t, a, j);
        lemma_last_index_is(t, b, i);
        assert(t.update(j, b).update(i, a) =~= s);
        assert(s.update(i, b).to_multiset() == s.to_multiset().remove(a).insert(b));
        assert(t.to_multiset() == s.update(i, b).to_multiset().remove(b).insert(a));
        assert(t.to_multiset() =~= s.to_multiset());
    }
}

/// In a sequence holding `v` at most once, the position `i` of `v` is the
/// only one.
proof fn lemma_unique_index(s: Seq<usize>, v: usize, i: int)
    requires
        0 <= i < s.len(),
        s[i] == v,
        s.to_multiset().count(v) <= 1,
    ensures
        forall|k: int| 0 <= k < s.len() && k != i ==> s[k] != v,
{
    broadcast use vstd::seq_lib::group_to_multiset_ensures;
    broadcast use vstd::multiset::group_multiset_axioms;

    assert forall|k: int| 0 <= k < s.len() && k != i implies s[k] != v by {
        if s[k] == v {
            let r = s.remove(i);
            assert(r.to_multiset() == s.to_multiset().remove(v));
            assert(r.to_multiset().count(v) == 0);
            let k2 = if k < i { k } else { k - 1 };
            assert(r[k2] == v);
            assert(r.contains(v));
        }
    }
}

proof fn lemma_singleton_multiset(v: usize)
    ensures
        seq![v].to_multiset() =~= Multiset::singleton(v),
{
    broadcast use vstd::seq_lib::group_to_multiset_ensures;
    broadcast use vstd::multiset::group_multiset_axioms;

    let e = Seq::<usize>::empty();
    assert(e.to_multiset().len() == 0);
    vstd::multiset::lemma_multiset_empty_len(e.to_multiset());
    assert(seq![v] =~= e.push(v));
}

proof fn lemma_last_index_is(s: Seq<usize>, v: usize, k: int)
    requires
        0 <= k < s.len(),
        s[k] == v,
        forall|j: int| k < j < s.len() ==> s[j] != v,
    ensures
        last_index_of(s, v) == k,
    decreases s.len(),
{
    if k < s.len() - 1 {
        assert(s.last() != v);
        assert forall|j: int| k < j < s.drop_last().len() implies s.drop_last()[j] != v by {
            assert(s.drop_last()[j] == s[j]);
        }
        lemma_last_index_is(s.drop_last(), v, k);
    }
}

proof fn lemma_last_index_take_step(s: Seq<usize>, k: int, v: usize)
    requires
        0 <= k < s.len(),
    ensures
        last_index_of(s.take(k + 1), v) == (if s[k] == v {
            k
        } else {
            last_index_of(s.take(k), v)
        }),
{
    assert(s.take(k + 1).drop_last() =~= s.take(k));
}

/// The last index of `v` is `-1` or a position holding `v`, and there is no
/// later one.
pub proof fn lemma_last_index_bounds(s: Seq<usize>, v: usize)
    ensures
        -1 <= last_index_of(s, v) < s.len(),
        last_index_of(s, v) >= 0 ==> s[last_index_of(s, v)] == v,
        forall|j: int| last_index_of(s, v) < j < s.len() ==> s[j] != v,
    decreases s.len(),
{
    if s.len() > 0 && s.last() != v {
        lemma_last_index_bounds(s.drop_last(), v);
        assert forall|j: int| last_index_of(s, v) < j < s.len() implies s[j] != v by {
            if j < s.len() - 1 {
                assert(s[j] == s.drop_last()[j]);
            }
        }
    }
}

} // verus!
