//! Mouse button and scroll state of the window manager.
use vstd::prelude::*;

verus! {

/// The state of one mouse button:
/// Idle -> Pressed -> Down -> Released -> Idle
#[derive(Debug, Clone, Copy, PartialEq, Eq)]
pub enum ButtonState {
    Idle,
    Pressed,
    Down,
    Released,
}

/// The state a button is in after a poll that reports it down or up.
pub open spec fn next_button_state(state: ButtonState, is_down: bool) -> ButtonState {
    match (state, is_down) {
        (ButtonState::Idle, true) => ButtonState::Pressed,
        (ButtonState::Pressed, true) => ButtonState::Down,
        (ButtonState::Released, true) => ButtonState::Pressed,
        (ButtonState::Pressed, false) => ButtonState::Released,
        (ButtonState::Down, false) => ButtonState::Released,
        (ButtonState::Released, false) => ButtonState::Idle,
        (s, _) => s,
    }
}

impl ButtonState {
    /// The next state of the button, given whether it is down now.
    pub fn next_state(&self, is_down: bool) -> (r: ButtonState)
        ensures
            r == next_button_state(*self, is_down),
    {
        match (*self, is_down) {
            // Button is pressed (Idle/Released -> Pressed -> Down/Released)
            (ButtonState::Idle, true) => ButtonState::Pressed,
            (ButtonState::Pressed, true) => ButtonState::Down,
            (ButtonState::Released, true) => ButtonState::Pressed,
            // Button is released (Down/Pressed -> Released -> Idle/Pressed)
            (ButtonState::Pressed, false) => ButtonState::Released,
            (ButtonState::Down, false) => ButtonState::Released,
            (ButtonState::Released, false) => ButtonState::Idle,
            // Maintain current state in other cases
            (state, _) => state,
        }
    }
}

/// Whatever state a button is in, two polls that report it down leave it
/// `Down` (or `Pressed` again after a release), and two polls that report it
/// up leave it `Idle`: a press always starts with `Pressed` and a release
/// always passes through `Released`.
pub proof fn lemma_button_cycle(s: ButtonState)
    ensures
        next_button_state(next_button_state(s, false), false) == ButtonState::Idle,
        next_button_state(next_button_state(s, true), true) == ButtonState::Down
            || s == ButtonState::Pressed,
        next_button_state(s, true) == ButtonState::Pressed <==> (s == ButtonState::Idle || s
            == ButtonState::Released),
        next_button_state(s, false) == ButtonState::Released <==> (s == ButtonState::Pressed
            || s == ButtonState::Down),
{
}

/// The state of the five mouse buttons.
#[derive(Debug, Clone, Copy, PartialEq, Eq)]
pub struct MouseButtonState {
    pub left: ButtonState,
    pub right: ButtonState,
    pub middle: ButtonState,
    pub button4: ButtonState,
    pub button5: ButtonState,
}

impl MouseButtonState {
    pub fn new() -> (r: Self)
        ensures
            r == (MouseButtonState {
                left: ButtonState::Idle,
                right: ButtonState::Idle,
                middle: ButtonState::Idle,
                button4: ButtonState::Idle,
                button5: ButtonState::Idle,
            }),
    {
        Self {
            left: ButtonState::Idle,
            right: ButtonState::Idle,
            middle: ButtonState::Idle,
            button4: ButtonState::Idle,
            button5: ButtonState::Idle,
        }
    }

    /// The button states after a mouse packet that reports which buttons are
    /// down.
    pub fn advance(&self, left: bool, right: bool, middle: bool, button4: bool, button5: bool) -> (r: Self)
        ensures
            r == (MouseButtonState {
                left: next_button_state(self.left, left),
                right: next_button_state(self.right, right),
                middle: next_button_state(self.middle, middle),
                button4: next_button_state(self.button4, button4),
                button5: next_button_state(self.button5, button5),
            }),
    {
        MouseButtonState {
            left: self.left.next_state(left),
            right: self.right.next_state(right),
            middle: self.middle.next_state(middle),
            button4: self.button4.next_state(button4),
            button5: self.button5.next_state(button5),
        }
    }
}

/// The direction of a scroll event.
#[derive(Debug, Clone, Copy, PartialEq, Eq)]
pub enum ScrollDirection {
    NoScroll,
    Up,
    Down,
    Left,
    Right,
}

impl ScrollDirection {
    /// The scroll direction of a packet's wheel movement: vertical scrolling
    /// sends -1 or 1, horizontal scrolling -2 or 2.
    pub fn from_dz(dz: i8) -> (r: ScrollDirection)
        ensures
            r == (if dz == -1 {
                ScrollDirection::Up
            } else if dz == 1 {
                ScrollDirection::Down
            } else if dz == -2 {
                ScrollDirection::Right
            } else if dz == 2 {
                ScrollDirection::Left
            } else {
                ScrollDirection::NoScroll
            }),
    {
        match dz {
            -1 => ScrollDirection::Up,
            1 => ScrollDirection::Down,
            -2 => ScrollDirection::Right,
            2 => ScrollDirection::Left,
            _ => ScrollDirection::NoScroll,
        }
    }
}

/// The position of the mouse cursor and where it was last drawn.
#[derive(Debug, Clone, Copy, PartialEq, Eq)]
pub struct MouseCursor {
    pub position: (u32, u32),
    pub last_position: (u32, u32),
}

impl MouseCursor {
    pub fn new() -> (r: Self)
        ensures
            r.position == (0u32, 0u32),
            r.last_position == (0u32, 0u32),
    {
        Self { position: (0, 0), last_position: (0, 0) }
    }

    /// Moves the cursor to `(x, y)`; it is drawn there on the next draw.
    pub fn update(&mut self, x: u32, y: u32)
        ensures
            final(self).position == (x, y),
            final(self).last_position == old(self).last_position,
    {
        self.position = (x, y);
    }

    /// Records that the cursor has been drawn at its position; returns the
    /// row from which the previous cursor image must be cleared.
    pub fn mark_drawn(&mut self) -> (r: u32)
        ensures
            r == old(self).last_position.1,
            final(self).last_position == old(self).position,
            final(self).position == old(self).position,
    {
        let row = self.last_position.1;
        self.last_position = self.position;
        row
    }
}

} // verus!
