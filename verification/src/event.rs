use vstd::prelude::*;
use crate::point::Point;

verus! {

/// A pointer button.
#[derive(Clone, Copy, Debug, PartialEq, Eq)]
pub enum Button {
    Left,
    Right,
    Middle,
    Other,
}

/// A key, as far as the session tells keys apart.
#[derive(Clone, Copy, Debug, PartialEq, Eq)]
pub enum Key {
    Enter,
    Escape,
    /// The key that, while held, turns a press into the start of a drag.
    Control,
    Character(char),
    Other,
}

/// What the host reports to the session. A pointer event carries the cursor's
/// position on the canvas, or `None` where the cursor is outside of it.
#[derive(Clone, Copy, Debug, PartialEq, Eq)]
pub enum Event {
    ButtonPressed { button: Button, cursor: Option<Point> },
    CursorMoved { cursor: Option<Point> },
    KeyPressed(Key),
    KeyReleased(Key),
    Other,
}

/// Whether the session took an event or left it to the host.
#[derive(Clone, Copy, Debug, PartialEq, Eq)]
pub enum Status {
    Ignored,
    Captured,
}

/// A command to the session.
#[derive(Clone, Copy, Debug, PartialEq, Eq)]
pub enum Message {
    RunChaikinAnimation,
    Tick,
    MousePressed(Point),
    Reset,
    Quit,
    MovePoint(Point),
}

/// What the host has to do after a command.
#[derive(Clone, Copy, Debug, PartialEq, Eq)]
pub enum Action {
    Continue,
    /// End the program at once, with exit code 0.
    Exit,
}

} // verus!
