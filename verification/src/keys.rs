//! What the terminal reports and what it is told: the cursor's place, the
//! terminal's size, the input events, and the outcome of one event.

use vstd::prelude::*;

verus! {

/// A place on the screen. Column 0 is the left edge, row 0 the top edge.
#[derive(Clone, Copy, Debug, PartialEq, Eq, Structural)]
pub struct Cursor {
    pub col: u16,
    pub row: u16,
}

/// The terminal's width in columns and its height in rows.
#[derive(Clone, Copy, Debug, PartialEq, Eq, Structural)]
pub struct TermSize {
    pub cols: u16,
    pub rows: u16,
}

/// Whether `cursor` lies on a terminal of size `size`: on one of its rows, and
/// at most one column behind the last.
pub open spec fn within(cursor: Cursor, size: TermSize) -> bool {
    cursor.col <= size.cols && cursor.row < size.rows
}

/// The column `col`, or the terminal's width `cols` where `col` lies behind it.
pub open spec fn min_col(col: int, cols: u16) -> u16 {
    if 0 <= col < cols {
        col as u16
    } else {
        cols
    }
}

/// The column `col`, held back at the terminal's width `cols`.
pub fn clamp_column(col: usize, cols: u16) -> (clamped: u16)
    ensures
        clamped == min_col(col as int, cols),
{
    if col < cols as usize {
        col as u16
    } else {
        cols
    }
}

/// The column `by` places to the right of `col`, held back at the terminal's
/// width `cols`.
pub fn advance_column(col: u16, by: usize, cols: u16) -> (clamped: u16)
    ensures
        clamped == min_col(col + by, cols),
{
    if col >= cols {
        cols
    } else if by >= (cols - col) as usize {
        cols
    } else {
        col + by as u16
    }
}

/// The key of a key event.
#[derive(Clone, Copy, Debug, PartialEq, Eq, Structural)]
pub enum Key {
    Char(char),
    Right,
    Left,
    Up,
    Down,
    Enter,
    Tab,
    Backspace,
    Delete,
    Home,
    End,
    Esc,
    /// Any key that the editor has no action for.
    Other,
}

/// The modifier keys that were held down with a key. `other` stands for every
/// modifier but Shift, Control and Alt.
#[derive(Clone, Copy, Debug, PartialEq, Eq, Structural)]
pub struct Modifiers {
    pub shift: bool,
    pub control: bool,
    pub alt: bool,
    pub other: bool,
}

impl Modifiers {
    /// Control was held down, and no other modifier.
    pub open spec fn only_control(self) -> bool {
        self.control && !self.shift && !self.alt && !self.other
    }

    /// Alt was held down, and no other modifier.
    pub open spec fn only_alt(self) -> bool {
        self.alt && !self.shift && !self.control && !self.other
    }

    /// Whether Control was held down, and no other modifier.
    pub fn is_control(&self) -> (r: bool)
        ensures
            r == self.only_control(),
    {
        self.control && !self.shift && !self.alt && !self.other
    }

    /// Whether Alt was held down, and no other modifier.
    pub fn is_alt(&self) -> (r: bool)
        ensures
            r == self.only_alt(),
    {
        self.alt && !self.shift && !self.control && !self.other
    }
}

/// Whether a key went down, is held down, or came up.
#[derive(Clone, Copy, Debug, PartialEq, Eq, Structural)]
pub enum KeyKind {
    Press,
    Repeat,
    Release,
}

/// One report about a key.
#[derive(Clone, Copy, Debug, PartialEq, Eq, Structural)]
pub struct KeyEvent {
    pub code: Key,
    pub modifiers: Modifiers,
    pub kind: KeyKind,
}

/// One input event.
#[derive(Clone, Copy, Debug, PartialEq, Eq, Structural)]
pub enum Event {
    /// The terminal has a new size.
    Resize { cols: u16, rows: u16 },
    Key(KeyEvent),
    /// Any other report of the terminal.
    Other,
}

/// What the caller has to do after an event.
#[derive(Clone, Copy, Debug, PartialEq, Eq, Structural)]
pub struct Outcome {
    /// Where the cursor belongs now.
    pub cursor: Cursor,
    /// Whether the whole buffer has to be drawn again.
    pub redraw: bool,
    /// Whether the text has to be saved.
    pub save: bool,
    /// `false` when the session ends.
    pub running: bool,
}

} // verus!
