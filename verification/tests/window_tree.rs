use d3os_core::window_tree::WindowNode;

fn leaves(t: &WindowNode) -> Vec<usize> {
    match t {
        WindowNode::Leaf(v) => vec![*v],
        WindowNode::Twig { left, right } => {
            let mut l = leaves(left);
            l.extend(leaves(right));
            l
        }
    }
}

#[test]
fn insert_value_splits_the_leaf() {
    let mut t = WindowNode::new_leaf(1);
    t.insert_value(1, 2);
    assert_eq!(leaves(&t), vec![1, 2]);
    t.insert_value(2, 3);
    assert_eq!(leaves(&t), vec![1, 2, 3]);
    t.insert_value(7, 8);
    assert_eq!(leaves(&t), vec![1, 2, 3]);
}

#[test]
fn get_sibling_finds_the_buddy() {
    let mut t = WindowNode::new_leaf(1);
    t.insert_value(1, 2);
    t.insert_value(2, 3);
    // tree: Twig(1, Twig(2, 3))
    assert_eq!(t.get_sibling(2), Some(3));
    assert_eq!(t.get_sibling(3), Some(2));
    assert_eq!(t.get_sibling(1), None);
    assert_eq!(t.get_sibling(9), None);
    assert_eq!(WindowNode::new_leaf(5).get_sibling(5), None);
}

#[test]
fn remove_leaf_reports_whether_removed() {
    let mut t = WindowNode::new_leaf(1);
    t.insert_value(1, 2);
    t.insert_value(2, 3);
    assert!(!t.remove_leaf(1));
    assert_eq!(leaves(&t), vec![1, 2, 3]);
    assert!(t.remove_leaf(3));
    assert_eq!(leaves(&t), vec![1, 2]);
    assert!(t.remove_leaf(1));
    assert_eq!(leaves(&t), vec![2]);
    assert!(!t.remove_leaf(2));
}

#[test]
fn split_then_close_restores_the_tree() {
    let mut t = WindowNode::new_twig(WindowNode::new_leaf(1), WindowNode::new_leaf(2));
    t.insert_value(2, 5);
    assert_eq!(t.get_sibling(5), Some(2));
    assert!(t.remove_leaf(5));
    assert_eq!(leaves(&t), vec![1, 2]);
    assert_eq!(t.get_sibling(1), Some(2));
}

#[test]
fn swap_values_exchanges_leaves() {
    let mut t = WindowNode::new_leaf(1);
    t.insert_value(1, 2);
    t.insert_value(2, 3);
    t.swap_values(1, 3);
    assert_eq!(leaves(&t), vec![3, 2, 1]);
    t.swap_values(1, 3);
    assert_eq!(leaves(&t), vec![1, 2, 3]);
    t.swap_values(1, 9);
    assert_eq!(leaves(&t), vec![1, 2, 3]);
    t.swap_values(2, 2);
    assert_eq!(leaves(&t), vec![1, 2, 3]);
}

#[test]
fn find_nodes_with_values_gives_leaf_positions() {
    let mut t = WindowNode::new_leaf(4);
    t.insert_value(4, 6);
    t.insert_value(6, 8);
    assert_eq!(t.find_nodes_with_values(4, 8), (Some(0), Some(2)));
    assert_eq!(t.find_nodes_with_values(6, 6), (Some(1), None));
    assert_eq!(t.find_nodes_with_values(1, 6), (None, Some(1)));
}
