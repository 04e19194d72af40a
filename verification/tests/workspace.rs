use d3os_core::window_tree::WindowNode;
use d3os_core::window_manager::Rect;
use d3os_core::workspace::{get_element_cursor_from_orderer, WindowArea, WorkspaceLayout};

fn three() -> WorkspaceLayout {
    let mut w = WorkspaceLayout::new_with_single_window(1, 1);
    w.insert_window(2, 1);
    w.insert_window(3, 2);
    w
}

#[test]
fn orderer_positions() {
    let v = vec![4, 5, 6];
    assert_eq!(get_element_cursor_from_orderer(&v, 5), Some(1));
    assert_eq!(get_element_cursor_from_orderer(&v, 7), None);
}

#[test]
fn insert_window_places_after() {
    let mut w = three();
    assert_eq!(w.window_orderer, vec![1, 2, 3]);
    w.insert_window(4, 1);
    assert_eq!(w.window_orderer, vec![1, 4, 2, 3]);
    assert_eq!(w.window_count(), 4);
}

#[test]
fn focus_cycles() {
    let mut w = three();
    assert_eq!(w.focused_window_id, 1);
    w.focus_next_window();
    assert_eq!(w.focused_window_id, 2);
    w.focus_next_window();
    w.focus_next_window();
    assert_eq!(w.focused_window_id, 1);
    w.focus_prev_window();
    assert_eq!(w.focused_window_id, 3);
    w.focus_next_window();
    assert_eq!(w.focused_window_id, 1);
}

#[test]
fn close_focused_window_needs_a_buddy() {
    let mut single = WorkspaceLayout::new_with_single_window(7, 7);
    assert_eq!(single.close_focused_window(), None);
    let mut w = three();
    // 1 has the twig (2, 3) as its sibling, so it has no buddy
    assert_eq!(w.close_focused_window(), None);
    w.focus_next_window();
    w.focus_next_window();
    assert_eq!(w.focused_window_id, 3);
    assert_eq!(w.close_focused_window(), Some(2));
    assert_eq!(w.window_orderer, vec![1, 2]);
    assert_eq!(w.focused_window_id, 1);
    assert_eq!(w.buddy_tree_root.get_sibling(1), Some(2));
}

#[test]
fn move_window_forward_and_back() {
    let mut w = three();
    assert_eq!(w.move_focused_window_forward(), Some(2));
    assert_eq!(w.window_orderer, vec![2, 1, 3]);
    assert_eq!(w.buddy_tree_root.find_nodes_with_values(1, 2), (Some(1), Some(0)));
    assert_eq!(w.move_focused_window_backward(), Some(2));
    assert_eq!(w.window_orderer, vec![1, 2, 3]);
    // the last window moves to the second place
    w.focus_prev_window();
    assert_eq!(w.move_focused_window_forward(), Some(1));
    assert_eq!(w.window_orderer, vec![1, 3, 2]);
    // the first window moves to the second-to-last place
    w.focus_prev_window();
    assert_eq!(w.focused_window_id, 1);
    assert_eq!(w.move_focused_window_backward(), Some(2));
    assert_eq!(w.window_orderer, vec![3, 1, 2]);
    let mut single = WorkspaceLayout::new_with_single_window(5, 5);
    assert_eq!(single.move_focused_window_forward(), None);
    assert!(matches!(single.buddy_tree_root, WindowNode::Leaf(5)));
}

#[test]
fn closing_a_window_gives_its_area_to_the_buddy() {
    // 1 fills the left half; 2 (top right) and 3 (bottom right) share the right half
    let mut w = three();
    let mut areas = vec![
        WindowArea { id: 1, rect: Rect { x: 0, y: 0, width: 400, height: 600 } },
        WindowArea { id: 2, rect: Rect { x: 400, y: 0, width: 400, height: 300 } },
        WindowArea { id: 3, rect: Rect { x: 400, y: 300, width: 400, height: 300 } },
    ];
    // 1 has no buddy: nothing changes
    assert_eq!(w.close_focused_window_merging(&mut areas), None);
    assert_eq!(areas.len(), 3);
    w.focus_prev_window();
    assert_eq!(w.focused_window_id, 3);
    assert_eq!(w.close_focused_window_merging(&mut areas), Some(2));
    assert_eq!(
        areas,
        vec![
            WindowArea { id: 1, rect: Rect { x: 0, y: 0, width: 400, height: 600 } },
            WindowArea { id: 2, rect: Rect { x: 400, y: 0, width: 400, height: 600 } },
        ]
    );
    // now 1 and 2 are buddies side by side
    assert_eq!(w.close_focused_window_merging(&mut areas), Some(2));
    assert_eq!(areas, vec![WindowArea { id: 2, rect: Rect { x: 0, y: 0, width: 800, height: 600 } }]);
}
