//! Decisions of the window manager: splitting and merging window areas,
//! the ring of workspaces, key bindings, the command line and frame pacing.
use vstd::prelude::*;

verus! {

/// An axis-aligned area of the screen.
#[derive(Copy, Clone, Debug, PartialEq, Eq)]
pub struct Rect {
    pub x: u32,
    pub y: u32,
    pub width: u32,
    pub height: u32,
}

/// How a window is split to make room for a new one.
#[derive(Copy, Clone, Debug, PartialEq, Eq)]
pub enum ScreenSplitType {
    /// The new window goes below the old one.
    Horizontal,
    /// The new window goes to the right of the old one.
    Vertical,
}

/// The area that stays with the old window and the area of the new window.
pub open spec fn split_spec(r: Rect, split: ScreenSplitType) -> (Rect, Rect) {
    match split {
        ScreenSplitType::Horizontal => (
            Rect { height: r.height / 2, ..r },
            Rect { x: r.x, y: (r.y + r.height / 2) as u32, width: r.width, height: r.height / 2 },
        ),
        ScreenSplitType::Vertical => (
            Rect { width: r.width / 2, ..r },
            Rect { x: (r.x + r.width / 2) as u32, y: r.y, width: r.width / 2, height: r.height },
        ),
    }
}

/// Splits `r` in two halves; an odd pixel is lost at the far edge.
pub fn split_rect(r: Rect, split: ScreenSplitType) -> (res: (Rect, Rect))
    requires
        split == ScreenSplitType::Horizontal ==> r.y + r.height / 2 <= u32::MAX,
        split == ScreenSplitType::Vertical ==> r.x + r.width / 2 <= u32::MAX,
    ensures
        res == split_spec(r, split),
{
    match split {
        ScreenSplitType::Horizontal => {
            let h = r.height / 2;
            (Rect { x: r.x, y: r.y, width: r.width, height: h }, Rect { x: r.x, y: r.y + h, width: r.width, height: h })
        },
        ScreenSplitType::Vertical => {
            let w = r.width / 2;
            (Rect { x: r.x, y: r.y, width: w, height: r.height }, Rect { x: r.x + w, y: r.y, width: w, height: r.height })
        },
    }
}

pub open spec fn min_u32(a: u32, b: u32) -> u32 {
    if a <= b { a } else { b }
}

/// The area of `a` after it absorbed its buddy `b`.
pub open spec fn merge_spec(a: Rect, b: Rect) -> Rect {
    if a.x != b.x {
        Rect { x: min_u32(a.x, b.x), y: a.y, width: (a.width * 2) as u32, height: a.height }
    } else if a.y != b.y {
        Rect { x: a.x, y: min_u32(a.y, b.y), width: a.width, height: (a.height * 2) as u32 }
    } else {
        a
    }
}

/// Grows the area `a` over its buddy `b`: side by side buddies double the
/// width, stacked buddies double the height. Buddies share their other
/// corner coordinate.
pub fn merge_rects(a: Rect, b: Rect) -> (res: Rect)
    requires
        a.x != b.x ==> a.y == b.y && a.width * 2 <= u32::MAX,
        a.x == b.x && a.y != b.y ==> a.height * 2 <= u32::MAX,
    ensures
        res == merge_spec(a, b),
{
    if a.x != b.x {
        let x = if a.x <= b.x { a.x } else { b.x };
        Rect { x, y: a.y, width: a.width * 2, height: a.height }
    } else if a.y != b.y {
        let y = if a.y <= b.y { a.y } else { b.y };
        Rect { x: a.x, y, width: a.width, height: a.height * 2 }
    } else {
        a
    }
}

/// Merging the two halves of a split gives back the split area, when the
/// split side has an even, non-zero length.
pub proof fn lemma_split_then_merge(r: Rect, split: ScreenSplitType)
    requires
        split == ScreenSplitType::Horizontal ==> r.height % 2 == 0 && r.height > 0
            && r.y + r.height / 2 <= u32::MAX,
        split == ScreenSplitType::Vertical ==> r.width % 2 == 0 && r.width > 0
            && r.x + r.width / 2 <= u32::MAX,
    ensures
        merge_spec(split_spec(r, split).0, split_spec(r, split).1) == r,
        merge_spec(split_spec(r, split).1, split_spec(r, split).0) == r,
{
}

/// The halves of a split do not overlap and stay inside the split area.
pub proof fn lemma_split_halves_disjoint(r: Rect, split: ScreenSplitType)
    requires
        split == ScreenSplitType::Horizontal ==> r.y + r.height / 2 <= u32::MAX,
        split == ScreenSplitType::Vertical ==> r.x + r.width / 2 <= u32::MAX,
    ensures
        ({
            let (a, b) = split_spec(r, split);
            &&& a.x == r.x && a.y == r.y
            &&& a.x + a.width <= r.x + r.width && a.y + a.height <= r.y + r.height
            &&& b.x + b.width <= r.x + r.width && b.y + b.height <= r.y + r.height
            &&& (a.x + a.width <= b.x || a.y + a.height <= b.y)
        }),
{
}

/// The most workspaces the window manager keeps at once.
pub const MAX_WORKSPACES: usize = 9;

/// What a click on the workspace selection bar asks for.
#[derive(Copy, Clone, Debug, PartialEq, Eq)]
pub enum WorkspaceSelectionEvent {
    /// The click hit no button.
    NoEvent,
    /// Switch to the workspace with this id.
    Switch(usize),
    /// Create a new workspace.
    New,
    /// Close the current workspace.
    Close,
}

/// The list of workspaces by position, and the one that is shown.
#[derive(Copy, Clone, Debug, PartialEq, Eq)]
pub struct WorkspaceRing {
    pub count: usize,
    pub current: usize,
}

impl WorkspaceRing {
    /// At most `MAX_WORKSPACES` workspaces, and the current one among them
    /// (position 0 while there is none).
    pub open spec fn wf(&self) -> bool {
        &&& self.count <= MAX_WORKSPACES
        &&& if self.count == 0 { self.current == 0 } else { self.current < self.count }
    }

    /// No workspace yet.
    pub fn new() -> (r: Self)
        ensures
            r.wf(),
            r.count == 0,
            r.current == 0,
    {
        WorkspaceRing { count: 0, current: 0 }
    }

    /// Shows the workspace at `index`; says whether that changed what is
    /// shown (the screen must then be redrawn).
    pub fn switch_to(&mut self, index: usize) -> (changed: bool)
        requires
            old(self).wf(),
            index < old(self).count,
        ensures
            final(self).wf(),
            final(self).count == old(self).count,
            final(self).current == index,
            changed == (old(self).current != index),
    {
        if self.current != index {
            self.current = index;
            true
        } else {
            false
        }
    }

    /// Shows the previous workspace, the last one after the first.
    pub fn switch_prev(&mut self) -> (changed: bool)
        requires
            old(self).wf(),
            old(self).count > 0,
        ensures
            final(self).wf(),
            final(self).count == old(self).count,
            final(self).current == (old(self).current + old(self).count - 1) % (old(self).count as int),
            changed == (old(self).current != final(self).current),
    {
        let prev = (self.current + self.count - 1) % self.count;
        self.switch_to(prev)
    }

    /// Shows the next workspace, the first one after the last.
    pub fn switch_next(&mut self) -> (changed: bool)
        requires
            old(self).wf(),
            old(self).count > 0,
        ensures
            final(self).wf(),
            final(self).count == old(self).count,
            final(self).current == (old(self).current + 1) % (old(self).count as int),
            changed == (old(self).current != final(self).current),
    {
        let next = (self.current + 1) % self.count;
        self.switch_to(next)
    }

    /// Appends a workspace and shows it; returns its position, or `None`
    /// when `MAX_WORKSPACES` are already there.
    pub fn create(&mut self) -> (r: Option<usize>)
        requires
            old(self).wf(),
        ensures
            final(self).wf(),
            old(self).count == MAX_WORKSPACES ==> r is None && *final(self) == *old(self),
            old(self).count < MAX_WORKSPACES ==> r == Some(old(self).count)
                && final(self).count == old(self).count + 1
                && final(self).current == old(self).count,
    {
        if self.count == MAX_WORKSPACES {
            return None;
        }
        let index = self.count;
        self.count = self.count + 1;
        self.switch_to(index);
        Some(index)
    }

    /// Removes the shown workspace and shows the one before its position
    /// (the last one when the first was removed); returns the removed
    /// position. The last workspace is never removed: `None`.
    pub fn remove_current(&mut self) -> (r: Option<usize>)
        requires
            old(self).wf(),
        ensures
            final(self).wf(),
            old(self).count <= 1 ==> r is None && *final(self) == *old(self),
            old(self).count > 1 ==> r == Some(old(self).current)
                && final(self).count == old(self).count - 1
                && final(self).current == (old(self).current + old(self).count - 2) % (old(self).count - 1),
    {
        if self.count <= 1 {
            return None;
        }
        let removed = self.current;
        self.count = self.count - 1;
        self.current = (removed + self.count - 1) % self.count;
        Some(removed)
    }
}

/// Switching to the next workspace and back shows the same workspace again.
pub proof fn lemma_next_then_prev(count: int, current: int)
    requires
        0 <= current < count,
    ensures
        ((current + 1) % count + count - 1) % count == current,
        ((current + count - 1) % count + 1) % count == current,
{
    if current + 1 < count {
        assert((current + 1) % count == current + 1) by (nonlinear_arith)
            requires 0 <= current + 1 < count;
    } else {
        assert((current + 1) % count == 0) by (nonlinear_arith)
            requires current + 1 == count, count > 0;
    }
    assert((current + count - 1) % count == if current == 0 { count - 1 } else { current - 1 }) by (nonlinear_arith)
        requires 0 <= current < count;
    assert(((current + 1) % count + count - 1) % count == current) by (nonlinear_arith)
        requires 0 <= current < count,
            (current + 1) % count == if current + 1 < count { current + 1 } else { 0 };
    assert(((current + count - 1) % count + 1) % count == current) by (nonlinear_arith)
        requires 0 <= current < count,
            (current + count - 1) % count == if current == 0 { count - 1 } else { current - 1 };
}

/// The workspace positions that closures keep after the workspace at
/// `removed` was closed: its own closures go, later positions move down.
pub open spec fn reindexed(s: Seq<usize>, removed: usize) -> Seq<usize>
    decreases s.len(),
{
    if s.len() == 0 {
        Seq::empty()
    } else {
        let rest = reindexed(s.drop_last(), removed);
        let x = s.last();
        if x == removed {
            rest
        } else if x > removed {
            rest.push((x - 1) as usize)
        } else {
            rest.push(x)
        }
    }
}

/// Drops the entries of `indices` equal to `removed` and lowers those above
/// it by one, keeping their order.
pub fn reindex_after_removal(indices: &Vec<usize>, removed: usize) -> (r: Vec<usize>)
    ensures
        r@ == reindexed(indices@, removed),
{
    let mut r: Vec<usize> = Vec::new();
    let mut i: usize = 0;
    while i < indices.len()
        invariant
            i <= indices.len(),
            r@ == reindexed(indices@.take(i as int), removed),
        decreases indices.len() - i,
    {
        let x = indices[i];
        assert(indices@.take(i + 1).drop_last() == indices@.take(i as int));
        if x != removed {
            if x > removed {
                r.push(x - 1);
            } else {
                r.push(x);
            }
        }
        i = i + 1;
    }
    assert(indices@.take(indices.len() as int) == indices@);
    r
}

/// What a key pressed outside the command line asks the window manager to do.
#[derive(Copy, Clone, Debug, PartialEq, Eq)]
pub enum KeyAction {
    CreateWorkspace,
    RemoveWorkspace,
    PrevWorkspace,
    NextWorkspace,
    MoveWindowForward,
    MoveWindowBackward,
    OpenCommandLine(ScreenSplitType),
    FocusNextComponent,
    FocusPrevComponent,
    FocusPrevWindow,
    FocusNextWindow,
    CloseWindow,
}

pub open spec fn key_action_spec(c: char) -> Option<KeyAction> {
    if c == 'c' { Some(KeyAction::CreateWorkspace) }
    else if c == 'x' { Some(KeyAction::RemoveWorkspace) }
    else if c == 'q' { Some(KeyAction::PrevWorkspace) }
    else if c == 'e' { Some(KeyAction::NextWorkspace) }
    else if c == 'o' { Some(KeyAction::MoveWindowForward) }
    else if c == 'i' { Some(KeyAction::MoveWindowBackward) }
    else if c == 'h' { Some(KeyAction::OpenCommandLine(ScreenSplitType::Horizontal)) }
    else if c == 'v' { Some(KeyAction::OpenCommandLine(ScreenSplitType::Vertical)) }
    else if c == 'w' { Some(KeyAction::FocusNextComponent) }
    else if c == 's' { Some(KeyAction::FocusPrevComponent) }
    else if c == 'a' { Some(KeyAction::FocusPrevWindow) }
    else if c == 'd' { Some(KeyAction::FocusNextWindow) }
    else if c == 'm' { Some(KeyAction::CloseWindow) }
    else { None }
}

/// The action bound to the character key `c`, if any.
pub fn key_action(c: char) -> (r: Option<KeyAction>)
    ensures
        r == key_action_spec(c),
{
    match c {
        'c' => Some(KeyAction::CreateWorkspace),
        'x' => Some(KeyAction::RemoveWorkspace),
        'q' => Some(KeyAction::PrevWorkspace),
        'e' => Some(KeyAction::NextWorkspace),
        'o' => Some(KeyAction::MoveWindowForward),
        'i' => Some(KeyAction::MoveWindowBackward),
        'h' => Some(KeyAction::OpenCommandLine(ScreenSplitType::Horizontal)),
        'v' => Some(KeyAction::OpenCommandLine(ScreenSplitType::Vertical)),
        'w' => Some(KeyAction::FocusNextComponent),
        's' => Some(KeyAction::FocusPrevComponent),
        'a' => Some(KeyAction::FocusPrevWindow),
        'd' => Some(KeyAction::FocusNextWindow),
        'm' => Some(KeyAction::CloseWindow),
        _ => None,
    }
}

/// A key as the command line sees it.
#[derive(Copy, Clone, Debug, PartialEq, Eq)]
pub enum CommandKey {
    Enter,
    Backspace,
    Escape,
    Char(char),
    /// A key that produces no character.
    Other,
}

/// The command line in which the name of an app to launch is typed.
pub struct CommandLine {
    pub active: bool,
    pub is_dirty: bool,
    pub command: Vec<char>,
    pub split_type: ScreenSplitType,
}

impl CommandLine {
    /// Inactive, with an empty command.
    pub fn new() -> (r: Self)
        ensures
            !r.active,
            r.is_dirty,
            r.command@ == Seq::<char>::empty(),
            r.split_type == ScreenSplitType::Horizontal,
    {
        CommandLine { active: false, is_dirty: true, command: Vec::new(), split_type: ScreenSplitType::Horizontal }
    }

    pub fn is_active(&self) -> (r: bool)
        ensures
            r == self.active,
    {
        self.active
    }

    /// Starts typing a new command for a window split in the given way.
    pub fn activate(&mut self, split_type: ScreenSplitType)
        ensures
            final(self).active,
            final(self).is_dirty,
            final(self).split_type == split_type,
            final(self).command@ == Seq::<char>::empty(),
    {
        self.active = true;
        self.is_dirty = true;
        self.split_type = split_type;
        self.command.clear();
    }

    pub fn deactivate(&mut self)
        ensures
            !final(self).active,
            final(self).is_dirty == old(self).is_dirty,
            final(self).command@ == old(self).command@,
            final(self).split_type == old(self).split_type,
    {
        self.active = false;
    }

    /// Handles one key: Enter hands out the command to launch (with the
    /// split) and closes the line, Escape closes it, Backspace removes the
    /// last character, a character is appended. Returns whether the line
    /// stays open, and the launch request.
    pub fn process_key(&mut self, key: CommandKey) -> (r: (bool, Option<(Vec<char>, ScreenSplitType)>))
        ensures
            r.0 == final(self).active,
            final(self).split_type == old(self).split_type,
            match key {
                CommandKey::Enter => {
                    &&& !final(self).active
                    &&& r.1 matches Some(req) && req.0@ == old(self).command@ && req.1 == old(self).split_type
                    &&& final(self).command@ == old(self).command@
                    &&& final(self).is_dirty == old(self).is_dirty
                },
                CommandKey::Backspace => {
                    &&& final(self).active == old(self).active
                    &&& r.1 is None
                    &&& final(self).is_dirty
                    &&& final(self).command@ == (if old(self).command@.len() == 0 { old(self).command@ } else { old(self).command@.drop_last() })
                },
                CommandKey::Escape => {
                    &&& !final(self).active
                    &&& r.1 is None
                    &&& final(self).command@ == old(self).command@
                    &&& final(self).is_dirty == old(self).is_dirty
                },
                CommandKey::Char(c) => {
                    &&& final(self).active == old(self).active
                    &&& r.1 is None
                    &&& final(self).is_dirty
                    &&& final(self).command@ == old(self).command@.push(c)
                },
                CommandKey::Other => {
                    &&& r.1 is None
                    &&& final(self).active == old(self).active
                    &&& final(self).command@ == old(self).command@
                    &&& final(self).is_dirty == old(self).is_dirty
                },
            },
    {
        let mut launch: Option<(Vec<char>, ScreenSplitType)> = None;
        match key {
            CommandKey::Enter => {
                launch = Some((self.command.clone(), self.split_type));
                self.active = false;
            },
            CommandKey::Backspace => {
                self.is_dirty = true;
                self.command.pop();
            },
            CommandKey::Escape => {
                self.active = false;
            },
            CommandKey::Char(c) => {
                self.is_dirty = true;
                self.command.push(c);
            },
            CommandKey::Other => {},
        }
        (self.active, launch)
    }
}

/// Counts the frames shown since the counter was last reset.
pub struct FrameCounter {
    frames: i64,
}

impl FrameCounter {
    pub closed spec fn frames(&self) -> int {
        self.frames as int
    }

    pub open spec fn wf(&self) -> bool {
        self.frames() >= 0
    }

    pub fn new() -> (r: Self)
        ensures
            r.wf(),
            r.frames() == 0,
    {
        FrameCounter { frames: 0 }
    }

    /// Counts one more frame. On overflow the count starts again at zero and
    /// `true` tells the caller to restart its clock too.
    pub fn record_frame(&mut self) -> (wrapped: bool)
        requires
            old(self).wf(),
        ensures
            final(self).wf(),
            wrapped == (old(self).frames() == i64::MAX),
            !wrapped ==> final(self).frames() == old(self).frames() + 1,
            wrapped ==> final(self).frames() == 0,
    {
        match self.frames.checked_add(1) {
            Some(f) => {
                self.frames = f;
                false
            },
            None => {
                self.frames = 0;
                true
            },
        }
    }

    /// Frames per second over `elapsed_ms` milliseconds, counted in whole
    /// seconds; zero before the first full second.
    pub fn fps(&self, elapsed_ms: i64) -> (r: i64)
        requires
            self.wf(),
        ensures
            elapsed_ms >= 1000 ==> r == self.frames() / (elapsed_ms / 1000),
            elapsed_ms < 1000 ==> r == 0,
    {
        if elapsed_ms >= 1000 {
            let seconds = elapsed_ms / 1000;
            self.frames / seconds
        } else {
            0
        }
    }
}

/// Whether at least `delay_ms` have passed since the last frame was shown.
pub fn should_flush(elapsed_ms: u32, delay_ms: u32) -> (r: bool)
    ensures
        r == (elapsed_ms >= delay_ms),
{
    elapsed_ms >= delay_ms
}


/// The key bindings: every action has exactly one key. 'c' creates and
/// 'x' removes a workspace, 'q' and 'e' switch to the previous and the next
/// workspace, 'o' and 'i' move the focused window forward and back, 'w'
/// and 's' focus the next and the previous component, 'a' and 'd' focus
/// the previous and the next window, 'm' closes the focused window, and
/// 'h' and 'v' open the command line for a horizontal and a vertical split.
pub proof fn lemma_key_bindings(c: char)
    ensures
        key_action_spec(c) == Some(KeyAction::CreateWorkspace) <==> c == 'c',
        key_action_spec(c) == Some(KeyAction::RemoveWorkspace) <==> c == 'x',
        key_action_spec(c) == Some(KeyAction::PrevWorkspace) <==> c == 'q',
        key_action_spec(c) == Some(KeyAction::NextWorkspace) <==> c == 'e',
        key_action_spec(c) == Some(KeyAction::MoveWindowForward) <==> c == 'o',
        key_action_spec(c) == Some(KeyAction::MoveWindowBackward) <==> c == 'i',
        key_action_spec(c) == Some(KeyAction::FocusNextComponent) <==> c == 'w',
        key_action_spec(c) == Some(KeyAction::FocusPrevComponent) <==> c == 's',
        key_action_spec(c) == Some(KeyAction::FocusPrevWindow) <==> c == 'a',
        key_action_spec(c) == Some(KeyAction::FocusNextWindow) <==> c == 'd',
        key_action_spec(c) == Some(KeyAction::CloseWindow) <==> c == 'm',
        key_action_spec(c) == Some(KeyAction::OpenCommandLine(ScreenSplitType::Horizontal)) <==> c == 'h',
        key_action_spec(c) == Some(KeyAction::OpenCommandLine(ScreenSplitType::Vertical)) <==> c == 'v',
        key_action_spec(c) is None <==> !(c == 'c' || c == 'x' || c == 'q' || c == 'e' || c == 'o' || c == 'i'
            || c == 'w' || c == 's' || c == 'a' || c == 'd' || c == 'm' || c == 'h' || c == 'v'),
{
}

} // verus!
