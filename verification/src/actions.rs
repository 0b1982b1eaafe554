//! The editor's actions, one for each key that has one. Each takes the
//! cursor's place as the terminal reported it and gives back the place where
//! the cursor belongs afterwards. An action that finds no line at the cursor's
//! row leaves buffer and cursor as they are.

use vstd::prelude::*;
use crate::buffer::{merged, split, Editor};
use crate::keys::{advance_column, clamp_column, min_col, Cursor, TermSize};
use crate::line::{
    content_end,
    insert_text,
    leading_whitespace,
    leading_whitespace_count,
    remove_char,
    space_run,
    spaces,
    trailing_content_end,
    with_inserted,
    without_range,
    TAB_SIZE,
};

verus! {

/// The cursor after Right: one column on, unless it stands at the terminal's
/// width.
pub open spec fn moved_right(cursor: Cursor, size: TermSize) -> Cursor {
    if cursor.col < size.cols {
        Cursor { col: (cursor.col + 1) as u16, row: cursor.row }
    } else {
        cursor
    }
}

/// The cursor after Left: one column back, unless it stands at column 0.
pub open spec fn moved_left(cursor: Cursor) -> Cursor {
    if cursor.col > 0 {
        Cursor { col: (cursor.col - 1) as u16, row: cursor.row }
    } else {
        cursor
    }
}

/// The cursor after Up: on the line above, no further right than that line's
/// end. It stays where it is on row 0, and where the buffer has no line above.
pub open spec fn moved_up(lines: Seq<Seq<char>>, cursor: Cursor) -> Cursor {
    if 0 < cursor.row <= lines.len() {
        Cursor {
            col: min_col(lines[cursor.row - 1].len() as int, cursor.col),
            row: (cursor.row - 1) as u16,
        }
    } else {
        cursor
    }
}

/// The cursor after Down: on the line below, no further right than that line's
/// end. It stays where it is on the buffer's last line and on the terminal's
/// last row.
pub open spec fn moved_down(lines: Seq<Seq<char>>, cursor: Cursor, size: TermSize) -> Cursor {
    if cursor.row + 1 < lines.len() && cursor.row + 1 < size.rows {
        Cursor {
            col: min_col(lines[cursor.row + 1].len() as int, cursor.col),
            row: (cursor.row + 1) as u16,
        }
    } else {
        cursor
    }
}

/// The column that Home aims at: that of the line's first character that is no
/// whitespace, and column 0 on a blank line.
pub open spec fn home_column(line: Seq<char>) -> nat {
    if leading_whitespace(line) == line.len() {
        0
    } else {
        leading_whitespace(line)
    }
}

/// The cursor after Home: at `home_column` of its line, held back at the
/// terminal's width.
pub open spec fn moved_home(lines: Seq<Seq<char>>, cursor: Cursor, size: TermSize) -> Cursor {
    if cursor.row < lines.len() {
        Cursor {
            col: min_col(home_column(lines[cursor.row as int]) as int, size.cols),
            row: cursor.row,
        }
    } else {
        cursor
    }
}

/// The cursor after End: just behind the last character of its line that is no
/// whitespace, held back at the terminal's width; at column 0 on a blank line.
pub open spec fn moved_end(lines: Seq<Seq<char>>, cursor: Cursor, size: TermSize) -> Cursor {
    if cursor.row < lines.len() {
        Cursor {
            col: min_col(content_end(lines[cursor.row as int]) as int, size.cols),
            row: cursor.row,
        }
    } else {
        cursor
    }
}

/// The buffer after `text` was typed at the cursor: it stands in the cursor's
/// line, at the cursor's column or at the line's end where the cursor stands
/// behind it.
pub open spec fn typed_lines(lines: Seq<Seq<char>>, cursor: Cursor, text: Seq<char>) -> Seq<
    Seq<char>,
> {
    if cursor.row < lines.len() {
        lines.update(
            cursor.row as int,
            with_inserted(lines[cursor.row as int], cursor.col as int, text),
        )
    } else {
        lines
    }
}

/// The cursor after `text` was typed: as many columns to the right as `text`
/// has characters, held back at the terminal's width.
pub open spec fn typed_cursor(
    lines: Seq<Seq<char>>,
    cursor: Cursor,
    size: TermSize,
    text: Seq<char>,
) -> Cursor {
    if cursor.row < lines.len() {
        Cursor { col: min_col(cursor.col + text.len(), size.cols), row: cursor.row }
    } else {
        cursor
    }
}

/// The buffer after Enter: the cursor's line is split at the cursor, and the
/// new line begins with as many spaces as the old line has leading whitespace.
pub open spec fn entered_lines(lines: Seq<Seq<char>>, cursor: Cursor) -> Seq<Seq<char>> {
    if cursor.row < lines.len() {
        split(
            lines,
            cursor.row as int,
            cursor.col as int,
            space_run(leading_whitespace(lines[cursor.row as int])),
        )
    } else {
        lines
    }
}

/// The cursor after Enter: behind the indentation of the new line, held back
/// at the terminal's width. On the buffer's last line and on the terminal's
/// last row there is no row to go down to, and the cursor stays on its row.
pub open spec fn entered_cursor(lines: Seq<Seq<char>>, cursor: Cursor, size: TermSize) -> Cursor {
    if cursor.row < lines.len() {
        Cursor {
            col: min_col(leading_whitespace(lines[cursor.row as int]) as int, size.cols),
            row: if cursor.row + 1 < lines.len() && cursor.row + 1 < size.rows {
                (cursor.row + 1) as u16
            } else {
                cursor.row
            },
        }
    } else {
        cursor
    }
}

/// How many characters Backspace removes in front of column `col` of `line`,
/// for a `col` above 0. Within the leading whitespace it goes back to the
/// multiple of `TAB_SIZE` in front of `col`; elsewhere it removes one
/// character.
pub open spec fn backspace_width(line: Seq<char>, col: int) -> int {
    if col <= leading_whitespace(line) {
        if col % (TAB_SIZE as int) == 0 {
            TAB_SIZE as int
        } else {
            col % (TAB_SIZE as int)
        }
    } else {
        1
    }
}

/// The buffer after Backspace. At column 0 the cursor's line is added to the
/// line above, if there is one. Elsewhere the characters in front of the
/// cursor leave the line, `backspace_width` of them.
pub open spec fn backspaced_lines(lines: Seq<Seq<char>>, cursor: Cursor) -> Seq<Seq<char>> {
    if cursor.row < lines.len() {
        let line = lines[cursor.row as int];
        if cursor.col == 0 {
            if cursor.row > 0 {
                merged(lines, cursor.row - 1)
            } else {
                lines
            }
        } else {
            lines.update(
                cursor.row as int,
                without_range(
                    line,
                    cursor.col - backspace_width(line, cursor.col as int),
                    cursor.col as int,
                ),
            )
        }
    } else {
        lines
    }
}

/// The cursor after Backspace. At column 0 it goes to the place where the two
/// lines were joined: the end of what the line above held, held back at the
/// terminal's width. Elsewhere it goes left by `backspace_width`.
pub open spec fn backspaced_cursor(lines: Seq<Seq<char>>, cursor: Cursor, size: TermSize) -> Cursor {
    if cursor.row < lines.len() {
        if cursor.col == 0 {
            if cursor.row > 0 {
                Cursor {
                    col: min_col(lines[cursor.row - 1].len() as int, size.cols),
                    row: (cursor.row - 1) as u16,
                }
            } else {
                cursor
            }
        } else {
            Cursor {
                col: (cursor.col - backspace_width(lines[cursor.row as int], cursor.col as int)) as u16,
                row: cursor.row,
            }
        }
    } else {
        cursor
    }
}

/// The buffer after Delete. With the cursor at or behind its line's end the
/// line below, if there is one, is added to the cursor's line. Elsewhere the
/// character at the cursor leaves the line. The cursor does not move.
pub open spec fn deleted_lines(lines: Seq<Seq<char>>, cursor: Cursor) -> Seq<Seq<char>> {
    if cursor.row < lines.len() {
        let line = lines[cursor.row as int];
        if cursor.col >= line.len() {
            if cursor.row + 1 < lines.len() {
                merged(lines, cursor.row as int)
            } else {
                lines
            }
        } else {
            lines.update(
                cursor.row as int,
                without_range(line, cursor.col as int, cursor.col + 1),
            )
        }
    } else {
        lines
    }
}

/// Where Right takes the cursor.
pub fn cursor_right(cursor: Cursor, size: TermSize) -> (moved: Cursor)
    ensures
        moved == moved_right(cursor, size),
{
    if cursor.col < size.cols {
        Cursor { col: cursor.col + 1, row: cursor.row }
    } else {
        cursor
    }
}

/// Where Left takes the cursor.
pub fn cursor_left(cursor: Cursor) -> (moved: Cursor)
    ensures
        moved == moved_left(cursor),
{
    if cursor.col > 0 {
        Cursor { col: cursor.col - 1, row: cursor.row }
    } else {
        cursor
    }
}

impl Editor {
    /// Where Up takes the cursor.
    pub fn cursor_up(&self, cursor: Cursor) -> (moved: Cursor)
        ensures
            moved == moved_up(self@, cursor),
    {
        if cursor.row > 0 && cursor.row as usize <= self.content.len() {
            let above = cursor.row - 1;
            let length = self.content[above as usize].as_str().unicode_len();
            Cursor { col: clamp_column(length, cursor.col), row: above }
        } else {
            cursor
        }
    }

    /// Where Down takes the cursor.
    pub fn cursor_down(&self, cursor: Cursor, size: TermSize) -> (moved: Cursor)
        ensures
            moved == moved_down(self@, cursor, size),
    {
        if cursor.row < u16::MAX && cursor.row + 1 < size.rows && (cursor.row as usize) + 1
            < self.content.len() {
            let below = cursor.row + 1;
            let length = self.content[below as usize].as_str().unicode_len();
            Cursor { col: clamp_column(length, cursor.col), row: below }
        } else {
            cursor
        }
    }

    /// Where Home takes the cursor.
    pub fn cursor_home(&self, cursor: Cursor, size: TermSize) -> (moved: Cursor)
        ensures
            moved == moved_home(self@, cursor, size),
    {
        let row = cursor.row as usize;
        if row >= self.content.len() {
            return cursor;
        }
        let line = self.content[row].as_str();
        let spaces_count = leading_whitespace_count(line);
        let target = if spaces_count == line.unicode_len() {
            0
        } else {
            spaces_count
        };
        Cursor { col: clamp_column(target, size.cols), row: cursor.row }
    }

    /// Where End takes the cursor.
    pub fn cursor_end(&self, cursor: Cursor, size: TermSize) -> (moved: Cursor)
        ensures
            moved == moved_end(self@, cursor, size),
    {
        let row = cursor.row as usize;
        if row >= self.content.len() {
            return cursor;
        }
        let target = trailing_content_end(self.content[row].as_str());
        Cursor { col: clamp_column(target, size.cols), row: cursor.row }
    }

    /// Types `ch` at the cursor and says where the cursor belongs afterwards.
    pub fn insert_string(&mut self, cursor: Cursor, size: TermSize, ch: &str) -> (moved: Cursor)
        ensures
            final(self)@ == typed_lines(old(self)@, cursor, ch@),
            moved == typed_cursor(old(self)@, cursor, size, ch@),
    {
        let current_line = cursor.row as usize;
        if current_line >= self.content.len() {
            return cursor;
        }
        let line = insert_text(self.content[current_line].as_str(), cursor.col as usize, ch);
        self.content[current_line] = line;
        assert(self@ =~= typed_lines(old(self)@, cursor, ch@));
        Cursor { col: advance_column(cursor.col, ch.unicode_len(), size.cols), row: cursor.row }
    }

    /// Enter: splits the cursor's line at the cursor, carries the line's
    /// indentation over to the new line, and says where the cursor belongs
    /// afterwards.
    pub fn press_enter(&mut self, cursor: Cursor, size: TermSize) -> (moved: Cursor)
        ensures
            final(self)@ == entered_lines(old(self)@, cursor),
            moved == entered_cursor(old(self)@, cursor, size),
    {
        let row = cursor.row as usize;
        if row >= self.content.len() {
            return cursor;
        }
        let spaces_count = leading_whitespace_count(self.content[row].as_str());
        let prefix = spaces(spaces_count);
        let below = row + 1 < self.content.len() && cursor.row < u16::MAX && cursor.row + 1
            < size.rows;
        self.split_line(row, cursor.col as usize, prefix.as_str());
        Cursor {
            col: clamp_column(spaces_count, size.cols),
            row: if below {
                cursor.row + 1
            } else {
                cursor.row
            },
        }
    }

    /// Backspace: removes what stands in front of the cursor, or joins the
    /// cursor's line to the line above, and says where the cursor belongs
    /// afterwards.
    pub fn press_backspace(&mut self, cursor: Cursor, size: TermSize) -> (moved: Cursor)
        ensures
            final(self)@ == backspaced_lines(old(self)@, cursor),
            moved == backspaced_cursor(old(self)@, cursor, size),
    {
        let row = cursor.row as usize;
        if row >= self.content.len() {
            return cursor;
        }
        if cursor.col == 0 {
            if cursor.row == 0 {
                return cursor;
            }
            let previous_line = cursor.row - 1;
            let join = self.content[previous_line as usize].as_str().unicode_len();
            self.merge_lines(previous_line);
            Cursor { col: clamp_column(join, size.cols), row: previous_line }
        } else {
            let spaces_count = leading_whitespace_count(self.content[row].as_str());
            let tab = TAB_SIZE as u16;
            let delete_length: u16 = if cursor.col as usize <= spaces_count {
                let r = cursor.col % tab;
                if r > 0 {
                    r
                } else {
                    tab
                }
            } else {
                1
            };
            let line = remove_char(
                (cursor.col - delete_length) as usize,
                cursor.col as usize,
                &self.content[row],
            );
            self.content[row] = line;
            assert(self@ =~= backspaced_lines(old(self)@, cursor));
            Cursor { col: cursor.col - delete_length, row: cursor.row }
        }
    }

    /// Delete: removes the character at the cursor, or joins the line below to
    /// the cursor's line. The cursor stays where it is.
    pub fn press_delete(&mut self, cursor: Cursor)
        ensures
            final(self)@ == deleted_lines(old(self)@, cursor),
    {
        let row = cursor.row as usize;
        if row >= self.content.len() {
            return ;
        }
        let col = cursor.col as usize;
        if col >= self.content[row].as_str().unicode_len() {
            if row + 1 < self.content.len() {
                self.merge_lines(cursor.row);
            }
        } else {
            let line = remove_char(col, col + 1, &self.content[row]);
            self.content[row] = line;
            assert(self@ =~= deleted_lines(old(self)@, cursor));
        }
    }
}

} // verus!
