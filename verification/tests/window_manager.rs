use d3os_core::window_manager::{
    key_action, merge_rects, reindex_after_removal, should_flush, split_rect, CommandKey, CommandLine,
    FrameCounter, KeyAction, Rect, ScreenSplitType, WorkspaceRing, WorkspaceSelectionEvent, MAX_WORKSPACES,
};

fn rect(x: u32, y: u32, width: u32, height: u32) -> Rect {
    Rect { x, y, width, height }
}

#[test]
fn split_halves_the_window() {
    let r = rect(10, 20, 800, 600);
    let (a, b) = split_rect(r, ScreenSplitType::Horizontal);
    assert_eq!(a, rect(10, 20, 800, 300));
    assert_eq!(b, rect(10, 320, 800, 300));
    let (a, b) = split_rect(r, ScreenSplitType::Vertical);
    assert_eq!(a, rect(10, 20, 400, 600));
    assert_eq!(b, rect(410, 20, 400, 600));
    // an odd pixel is lost
    let (a, b) = split_rect(rect(0, 0, 5, 5), ScreenSplitType::Vertical);
    assert_eq!((a.width, b.x, b.width), (2, 2, 2));
}

#[test]
fn merging_the_halves_of_a_split_restores_the_window() {
    let r = rect(10, 20, 800, 600);
    for split in [ScreenSplitType::Horizontal, ScreenSplitType::Vertical] {
        let (a, b) = split_rect(r, split);
        assert_eq!(merge_rects(a, b), r);
        assert_eq!(merge_rects(b, a), r);
    }
    // identical corners: nothing to merge
    assert_eq!(merge_rects(r, r), r);
}

#[test]
fn workspace_ring_creates_up_to_nine() {
    let mut ring = WorkspaceRing::new();
    assert_eq!(ring.count, 0);
    for i in 0..MAX_WORKSPACES {
        assert_eq!(ring.create(), Some(i));
        assert_eq!(ring.current, i);
    }
    assert_eq!(ring.create(), None);
    assert_eq!(ring.count, 9);
}

#[test]
fn workspace_ring_switches_around() {
    let mut ring = WorkspaceRing::new();
    ring.create();
    ring.create();
    ring.create();
    assert_eq!(ring.current, 2);
    assert!(ring.switch_next());
    assert_eq!(ring.current, 0);
    assert!(ring.switch_prev());
    assert_eq!(ring.current, 2);
    assert!(ring.switch_to(1));
    assert!(!ring.switch_to(1));
    // next then previous shows the same workspace again
    ring.switch_next();
    ring.switch_prev();
    assert_eq!(ring.current, 1);
}

#[test]
fn removing_a_workspace_shows_the_one_before() {
    let mut ring = WorkspaceRing::new();
    ring.create();
    // the last workspace stays
    assert_eq!(ring.remove_current(), None);
    ring.create();
    ring.create();
    ring.switch_to(1);
    assert_eq!(ring.remove_current(), Some(1));
    assert_eq!((ring.count, ring.current), (2, 0));
    // removing the first shows the last
    ring.create();
    ring.switch_to(0);
    assert_eq!(ring.remove_current(), Some(0));
    assert_eq!((ring.count, ring.current), (2, 1));
}

#[test]
fn closures_follow_their_workspace() {
    assert_eq!(reindex_after_removal(&vec![0, 1, 2, 1, 3], 1), vec![0, 1, 2]);
    assert_eq!(reindex_after_removal(&vec![], 0), Vec::<usize>::new());
    assert_eq!(reindex_after_removal(&vec![0, 0], 0), Vec::<usize>::new());
}

#[test]
fn key_bindings() {
    assert_eq!(key_action('c'), Some(KeyAction::CreateWorkspace));
    assert_eq!(key_action('x'), Some(KeyAction::RemoveWorkspace));
    assert_eq!(key_action('h'), Some(KeyAction::OpenCommandLine(ScreenSplitType::Horizontal)));
    assert_eq!(key_action('v'), Some(KeyAction::OpenCommandLine(ScreenSplitType::Vertical)));
    assert_eq!(key_action('m'), Some(KeyAction::CloseWindow));
    assert_eq!(key_action('z'), None);
    assert_eq!(key_action('C'), None);
}

#[test]
fn command_line_typing_and_launch() {
    let mut cl = CommandLine::new();
    assert!(!cl.is_active());
    cl.activate(ScreenSplitType::Vertical);
    assert!(cl.is_active());
    for c in "shelk".chars() {
        assert_eq!(cl.process_key(CommandKey::Char(c)).0, true);
    }
    assert_eq!(cl.process_key(CommandKey::Backspace), (true, None));
    cl.process_key(CommandKey::Char('l'));
    cl.process_key(CommandKey::Other);
    let (keep, launch) = cl.process_key(CommandKey::Enter);
    assert!(!keep);
    let (name, split) = launch.unwrap();
    assert_eq!(name.iter().collect::<String>(), "shell");
    assert_eq!(split, ScreenSplitType::Vertical);
    // a new activation starts empty; escape closes without launching
    cl.activate(ScreenSplitType::Horizontal);
    assert!(cl.command.is_empty());
    cl.process_key(CommandKey::Char('a'));
    assert_eq!(cl.process_key(CommandKey::Escape), (false, None));
    // backspace on an empty line changes nothing
    let mut cl = CommandLine::new();
    cl.activate(ScreenSplitType::Horizontal);
    cl.process_key(CommandKey::Backspace);
    assert!(cl.command.is_empty());
}

#[test]
fn frame_pacing() {
    let mut f = FrameCounter::new();
    for _ in 0..120 {
        assert!(!f.record_frame());
    }
    assert_eq!(f.fps(2500), 60);
    assert_eq!(f.fps(999), 0);
    assert!(should_flush(16, 16));
    assert!(!should_flush(15, 16));
}

#[test]
fn selection_events() {
    let e = WorkspaceSelectionEvent::Switch(3);
    assert_ne!(e, WorkspaceSelectionEvent::NoEvent);
    assert_eq!(e, WorkspaceSelectionEvent::Switch(3));
}
