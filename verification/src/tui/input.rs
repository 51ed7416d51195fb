//! Keys, mouse and rectangles of the terminal.

use vstd::prelude::*;

verus! {

/// A key of the keyboard.
#[derive(Debug, Clone, Copy, PartialEq, Eq, Structural)]
pub enum KeyCode {
    Char(char),
    Enter,
    Esc,
    Tab,
    BackTab,
    Left,
    Right,
    Up,
    Down,
    PageUp,
    PageDown,
    Home,
    End,
    Other,
}

/// A key that was pressed.
#[derive(Debug, Clone, Copy, PartialEq, Eq, Structural)]
pub struct Key {
    pub code: KeyCode,
    pub ctrl: bool,
    pub alt: bool,
}

impl Key {
    /// A key pressed without modifiers.
    pub fn plain(code: KeyCode) -> (r: Self)
        ensures
            r == (Key { code, ctrl: false, alt: false }),
    {
        Key { code, ctrl: false, alt: false }
    }

    /// Whether the key asks to leave the program at once.
    pub open spec fn quits(self) -> bool {
        self.ctrl && self.code == KeyCode::Char('c')
    }

    /// Whether the key asks to leave the program at once.
    pub fn is_ctrl_c(self) -> (r: bool)
        ensures
            r == self.quits(),
    {
        self.ctrl && self.code == KeyCode::Char('c')
    }
}

/// What the mouse did.
#[derive(Debug, Clone, Copy, PartialEq, Eq, Structural)]
pub enum MouseKind {
    /// The left button went down.
    DownLeft,
    /// The mouse moved with the left button down.
    DragLeft,
    /// The left button went up.
    UpLeft,
    ScrollUp,
    ScrollDown,
    /// Anything else, such as mere movement or another button.
    Other,
}

/// Something that the mouse did at a place of the terminal.
#[derive(Debug, Clone, Copy, PartialEq, Eq, Structural)]
pub struct Mouse {
    pub kind: MouseKind,
    pub column: u16,
    pub row: u16,
}

/// A rectangle of the terminal, in character cells.
#[derive(Debug, Clone, Copy, PartialEq, Eq, Structural)]
pub struct Rect {
    pub x: u16,
    pub y: u16,
    pub width: u16,
    pub height: u16,
}

impl Rect {
    /// A rectangle whose far corner can be written down.
    pub open spec fn ok(self) -> bool {
        self.x + self.width <= u16::MAX && self.y + self.height <= u16::MAX
    }

    /// Whether a cell lies in the rectangle.
    pub open spec fn has(self, column: u16, row: u16) -> bool {
        self.x <= column < self.x + self.width && self.y <= row < self.y + self.height
    }

    /// Whether all of another rectangle lies in this one.
    pub open spec fn covers(self, r: Rect) -> bool {
        self.x <= r.x && r.x + r.width <= self.x + self.width && self.y <= r.y && r.y + r.height
            <= self.y + self.height
    }

    /// Whether a cell lies in the rectangle.
    pub fn contains(self, column: u16, row: u16) -> (r: bool)
        ensures
            r == self.has(column, row),
    {
        self.x <= column && (column - self.x) < self.width && self.y <= row && (row - self.y)
            < self.height
    }
}

} // verus!
