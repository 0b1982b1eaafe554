//! From an input event to an action. Each event is handled by itself: what
//! happens depends on the event, the buffer, and the cursor's place and the
//! terminal's size as they were reported with the event.
//!
//! | modifiers     | key               | action                                |
//! |---------------|-------------------|---------------------------------------|
//! | Control alone | `s`, `S`          | the text is to be saved               |
//! | Alt alone     | any               | none                                  |
//! | any other set | a character       | the character is typed                |
//! |               | Tab               | `TAB_SIZE` spaces are typed           |
//! |               | Enter             | the line is split                     |
//! |               | Backspace, Delete | a character leaves, or two lines join |
//! |               | arrows, Home, End | the cursor moves                      |
//! | any           | Esc               | the session ends                      |

use vstd::prelude::*;
use crate::actions::{
    backspaced_cursor,
    backspaced_lines,
    cursor_left,
    cursor_right,
    deleted_lines,
    entered_cursor,
    entered_lines,
    moved_down,
    moved_end,
    moved_home,
    moved_left,
    moved_right,
    moved_up,
    typed_cursor,
    typed_lines,
};
use crate::buffer::{resized, Editor};
use crate::chars::char_to_string;
use crate::keys::{Cursor, Event, Key, KeyEvent, KeyKind, Outcome, TermSize};
use crate::line::{space_run, spaces, TAB_SIZE};

verus! {

/// Whether the key is looked up among the editing and cursor keys: with every
/// set of modifiers but Control alone and Alt alone.
pub open spec fn plain(event: KeyEvent) -> bool {
    !event.modifiers.only_control() && !event.modifiers.only_alt()
}

/// Whether the key asks for the text to be saved: `s` or `S` with Control
/// alone.
pub open spec fn asks_to_save(event: KeyEvent) -> bool {
    event.modifiers.only_control() && (event.code == Key::Char('s') || event.code == Key::Char(
        'S',
    ))
}

/// Whether the key is one of those that change the text, after which the
/// buffer is drawn again.
pub open spec fn edits(event: KeyEvent) -> bool {
    plain(event) && (event.code is Char || event.code == Key::Tab || event.code == Key::Enter
        || event.code == Key::Backspace || event.code == Key::Delete)
}

/// The buffer after a key.
pub open spec fn key_lines(lines: Seq<Seq<char>>, event: KeyEvent, cursor: Cursor) -> Seq<
    Seq<char>,
> {
    if plain(event) {
        match event.code {
            Key::Char(c) => typed_lines(lines, cursor, seq![c]),
            Key::Tab => typed_lines(lines, cursor, space_run(TAB_SIZE as nat)),
            Key::Enter => entered_lines(lines, cursor),
            Key::Backspace => backspaced_lines(lines, cursor),
            Key::Delete => deleted_lines(lines, cursor),
            _ => lines,
        }
    } else {
        lines
    }
}

/// Where the cursor belongs after a key.
pub open spec fn key_cursor(
    lines: Seq<Seq<char>>,
    event: KeyEvent,
    cursor: Cursor,
    size: TermSize,
) -> Cursor {
    if plain(event) {
        match event.code {
            Key::Char(c) => typed_cursor(lines, cursor, size, seq![c]),
            Key::Tab => typed_cursor(lines, cursor, size, space_run(TAB_SIZE as nat)),
            Key::Enter => entered_cursor(lines, cursor, size),
            Key::Backspace => backspaced_cursor(lines, cursor, size),
            Key::Right => moved_right(cursor, size),
            Key::Left => moved_left(cursor),
            Key::Up => moved_up(lines, cursor),
            Key::Down => moved_down(lines, cursor, size),
            Key::Home => moved_home(lines, cursor, size),
            Key::End => moved_end(lines, cursor, size),
            _ => cursor,
        }
    } else {
        cursor
    }
}

/// What is to be done after a key.
pub open spec fn key_outcome(
    lines: Seq<Seq<char>>,
    event: KeyEvent,
    cursor: Cursor,
    size: TermSize,
) -> Outcome {
    Outcome {
        cursor: key_cursor(lines, event, cursor, size),
        redraw: edits(event),
        save: asks_to_save(event),
        running: event.code != Key::Esc,
    }
}

/// The buffer after an input event: a new size resizes it, a key that went
/// down acts on it, and nothing else changes it.
pub open spec fn event_lines(lines: Seq<Seq<char>>, event: Event, cursor: Cursor) -> Seq<
    Seq<char>,
> {
    match event {
        Event::Resize { cols, rows } => resized(lines, rows as nat),
        Event::Key(key) => if key.kind == KeyKind::Press {
            key_lines(lines, key, cursor)
        } else {
            lines
        },
        Event::Other => lines,
    }
}

/// What is to be done after an input event. Only a key that went down asks
/// for anything.
pub open spec fn event_outcome(
    lines: Seq<Seq<char>>,
    event: Event,
    cursor: Cursor,
    size: TermSize,
) -> Outcome {
    match event {
        Event::Key(key) if key.kind == KeyKind::Press => key_outcome(lines, key, cursor, size),
        _ => Outcome { cursor, redraw: false, save: false, running: true },
    }
}

impl Editor {
    /// Acts on one key. `cursor` and `size` are what the terminal reported
    /// when the key came in. The kind of the event is not looked at.
    pub fn handle_key(&mut self, event: KeyEvent, cursor: Cursor, size: TermSize) -> (outcome:
        Outcome)
        ensures
            final(self)@ == key_lines(old(self)@, event, cursor),
            outcome == key_outcome(old(self)@, event, cursor, size),
    {
        let mut moved = cursor;
        let mut redraw = false;
        let mut save = false;
        if event.modifiers.is_control() {
            match event.code {
                Key::Char(k) => {
                    if k == 's' || k == 'S' {
                        save = true;
                    }
                },
                _ => (),
            }
        } else if !event.modifiers.is_alt() {
            match event.code {
                Key::Char(c) => {
                    let text = char_to_string(c);
                    moved = self.insert_string(cursor, size, text.as_str());
                    redraw = true;
                },
                Key::Right => {
                    moved = cursor_right(cursor, size);
                },
                Key::Left => {
                    moved = cursor_left(cursor);
                },
                Key::Up => {
                    moved = self.cursor_up(cursor);
                },
                Key::Down => {
                    moved = self.cursor_down(cursor, size);
                },
                Key::Enter => {
                    moved = self.press_enter(cursor, size);
                    redraw = true;
                },
                Key::Tab => {
                    let text = spaces(TAB_SIZE);
                    moved = self.insert_string(cursor, size, text.as_str());
                    redraw = true;
                },
                Key::Backspace => {
                    moved = self.press_backspace(cursor, size);
                    redraw = true;
                },
                Key::Delete => {
                    self.press_delete(cursor);
                    redraw = true;
                },
                Key::Home => {
                    moved = self.cursor_home(cursor, size);
                },
                Key::End => {
                    moved = self.cursor_end(cursor, size);
                },
                _ => (),
            }
        }
        let running = match event.code {
            Key::Esc => false,
            _ => true,
        };
        Outcome { cursor: moved, redraw, save, running }
    }

    /// Acts on one input event. A new size of the terminal resizes the
    /// buffer; a key acts when it went down, not while it is held nor when it
    /// comes up; every other event is passed over.
    pub fn handle_event(&mut self, event: Event, cursor: Cursor, size: TermSize) -> (outcome:
        Outcome)
        ensures
            final(self)@ == event_lines(old(self)@, event, cursor),
            outcome == event_outcome(old(self)@, event, cursor, size),
    {
        match event {
            Event::Resize { cols, rows } => {
                self.resize(cols as usize, rows as usize);
                Outcome { cursor, redraw: false, save: false, running: true }
            },
            Event::Key(key) => {
                match key.kind {
                    KeyKind::Press => self.handle_key(key, cursor, size),
                    _ => Outcome { cursor, redraw: false, save: false, running: true },
                }
            },
            Event::Other => Outcome { cursor, redraw: false, save: false, running: true },
        }
    }
}

} // verus!
