//! What holds of the editor's operations taken together.

use vstd::prelude::*;
use crate::actions::{backspaced_cursor, backspaced_lines, entered_lines};
use crate::buffer::{merged, split};
use crate::chars::blank_char;
use crate::dispatch::{key_cursor, key_lines, plain};
use crate::keys::{within, Cursor, Key, KeyEvent, TermSize};
use crate::line::{
    blank_line,
    content_end,
    leading_whitespace,
    lemma_content_end,
    lemma_content_end_unique,
    lemma_leading_whitespace,
    lemma_leading_whitespace_unique,
    space_run,
    with_inserted,
    without_range,
};

verus! {

/// Removing one character of a line and putting the same character back in at
/// the same index gives the line again.
pub proof fn law_remove_then_insert(line: Seq<char>, i: int)
    requires
        0 <= i < line.len(),
    ensures
        with_inserted(without_range(line, i, i + 1), i, seq![line[i]]) == line,
{
    let shorter = without_range(line, i, i + 1);
    assert(shorter.take(i) =~= line.take(i));
    assert(shorter.skip(i) =~= line.skip(i + 1));
    assert(line.take(i) + seq![line[i]] + line.skip(i + 1) =~= line);
}

/// Putting a text into a line and removing the columns that it fills gives the
/// line again.
pub proof fn law_insert_then_remove(line: Seq<char>, col: int, text: Seq<char>)
    requires
        0 <= col <= line.len(),
    ensures
        without_range(with_inserted(line, col, text), col, col + text.len()) == line,
{
    let longer = with_inserted(line, col, text);
    if text.len() > 0 {
        assert(longer.take(col) =~= line.take(col));
        assert(longer.skip(col + text.len()) =~= line.skip(col));
        assert(line.take(col) + line.skip(col) =~= line);
    } else {
        assert(longer =~= line);
    }
}

/// Splitting a line without a prefix and merging the two parts again gives the
/// line again, whatever the column. Every other line stays too, but for the
/// buffer's last line, which the split has pushed out. (On the buffer's last
/// row a split leaves no second part to merge.)
pub proof fn law_split_then_merge(lines: Seq<Seq<char>>, row: int, col: int)
    requires
        0 <= row,
        row + 1 < lines.len(),
    ensures
        merged(split(lines, row, col, Seq::empty()), row)[row] == lines[row],
        merged(split(lines, row, col, Seq::empty()), row) == lines.drop_last(),
{
    let halves = split(lines, row, col, Seq::empty());
    let whole = merged(halves, row);
    assert(halves[row] + halves[row + 1] =~= lines[row]);
    assert(whole =~= lines.drop_last());
}

/// A split keeps the number of lines.
pub proof fn law_split_keeps_row_count(lines: Seq<Seq<char>>, row: int, col: int, prefix: Seq<char>)
    ensures
        split(lines, row, col, prefix).len() == lines.len(),
{
}

/// Whether a key joins two lines: Backspace at column 0 below the first line,
/// or Delete at or behind the end of a line that has a line below it; either
/// with modifiers under which the key acts at all.
pub open spec fn joins_lines(lines: Seq<Seq<char>>, event: KeyEvent, cursor: Cursor) -> bool {
    plain(event) && cursor.row < lines.len() && ((event.code == Key::Backspace && cursor.col == 0
        && cursor.row > 0) || (event.code == Key::Delete && cursor.col >= lines[cursor.row as int].len()
        && cursor.row + 1 < lines.len()))
}

/// A key that joins two lines makes the buffer one line shorter. Every other
/// key keeps the number of lines.
pub proof fn law_key_row_count(lines: Seq<Seq<char>>, event: KeyEvent, cursor: Cursor)
    ensures
        joins_lines(lines, event, cursor) ==> key_lines(lines, event, cursor).len() == lines.len()
            - 1,
        !joins_lines(lines, event, cursor) ==> key_lines(lines, event, cursor).len()
            == lines.len(),
{
}

/// Buffer and cursor after a run of keys, the first key first, on a terminal
/// of size `size`: each key acts on the buffer that the keys before it left,
/// with the cursor where they left it.
pub open spec fn after_keys(
    lines: Seq<Seq<char>>,
    cursor: Cursor,
    size: TermSize,
    keys: Seq<KeyEvent>,
) -> (Seq<Seq<char>>, Cursor)
    decreases keys.len(),
{
    if keys.len() == 0 {
        (lines, cursor)
    } else {
        let (before, at) = after_keys(lines, cursor, size, keys.drop_last());
        (key_lines(before, keys.last(), at), key_cursor(before, keys.last(), at, size))
    }
}

/// Whether none of the keys of a run joins two lines at the moment it acts.
pub open spec fn no_key_joins(
    lines: Seq<Seq<char>>,
    cursor: Cursor,
    size: TermSize,
    keys: Seq<KeyEvent>,
) -> bool {
    forall|k: int|
        0 <= k < keys.len() ==> !joins_lines(
            (#[trigger] after_keys(lines, cursor, size, keys.take(k))).0,
            keys[k],
            after_keys(lines, cursor, size, keys.take(k)).1,
        )
}

/// The number of lines stays the same over every run of keys of which none
/// joins two lines: typing, removing characters, splitting lines and moving
/// the cursor never change it.
pub proof fn law_row_count_invariant(
    lines: Seq<Seq<char>>,
    cursor: Cursor,
    size: TermSize,
    keys: Seq<KeyEvent>,
)
    requires
        no_key_joins(lines, cursor, size, keys),
    ensures
        after_keys(lines, cursor, size, keys).0.len() == lines.len(),
    decreases keys.len(),
{
    if keys.len() > 0 {
        let earlier = keys.drop_last();
        assert forall|k: int| 0 <= k < earlier.len() implies !joins_lines(
            (#[trigger] after_keys(lines, cursor, size, earlier.take(k))).0,
            earlier[k],
            after_keys(lines, cursor, size, earlier.take(k)).1,
        ) by {
            assert(earlier.take(k) =~= keys.take(k));
        }
        law_row_count_invariant(lines, cursor, size, earlier);
        let k = keys.len() - 1;
        assert(keys.take(k) =~= earlier);
        let (before, at) = after_keys(lines, cursor, size, earlier);
        assert(!joins_lines(before, keys[k], at));
        law_key_row_count(before, keys.last(), at);
    }
}

/// On a blank line, and so on an empty one, the leading whitespace is the
/// whole line.
pub proof fn law_leading_whitespace_of_blank(line: Seq<char>)
    requires
        blank_line(line),
    ensures
        leading_whitespace(line) == line.len(),
{
    lemma_leading_whitespace_unique(line, line.len() as int);
}

/// On a line of spaces the leading whitespace is the whole line.
pub proof fn law_leading_whitespace_of_spaces(n: nat)
    ensures
        leading_whitespace(space_run(n)) == n,
{
    law_leading_whitespace_of_blank(space_run(n));
}

/// A line that is empty, or begins with a character that is no whitespace, has
/// no leading whitespace.
pub proof fn law_no_leading_whitespace(line: Seq<char>)
    requires
        line.len() == 0 || !blank_char(line[0]),
    ensures
        leading_whitespace(line) == 0,
{
}

/// The leading whitespace of a line ends at or in front of the end of its
/// content, unless the line is blank: then the content ends at column 0.
pub proof fn law_whitespace_around_content(line: Seq<char>)
    ensures
        blank_line(line) <==> content_end(line) == 0,
        blank_line(line) <==> leading_whitespace(line) == line.len(),
        !blank_line(line) ==> leading_whitespace(line) < content_end(line) <= line.len(),
{
    lemma_leading_whitespace(line);
    lemma_content_end(line);
    let lead = leading_whitespace(line) as int;
    let end = content_end(line) as int;
    if blank_line(line) {
        lemma_content_end_unique(line, 0);
        lemma_leading_whitespace_unique(line, line.len() as int);
    } else {
        if end <= lead {
            assert forall|i: int| 0 <= i < line.len() implies blank_char(#[trigger] line[i]) by {
                if i < lead {
                } else {
                    assert(end <= i);
                }
            }
        }
    }
}

/// No key takes the cursor off the terminal: a cursor that lies on the
/// terminal lies on it after every key.
pub proof fn law_cursor_stays_on_terminal(
    lines: Seq<Seq<char>>,
    event: KeyEvent,
    cursor: Cursor,
    size: TermSize,
)
    requires
        within(cursor, size),
    ensures
        within(key_cursor(lines, event, cursor, size), size),
{
    if cursor.row < lines.len() {
        lemma_leading_whitespace(lines[cursor.row as int]);
    }
}

/// No key takes the cursor out of the buffer: a cursor on a row that has a line
/// is on such a row after every key.
pub proof fn law_cursor_stays_in_buffer(
    lines: Seq<Seq<char>>,
    event: KeyEvent,
    cursor: Cursor,
    size: TermSize,
)
    requires
        cursor.row < lines.len(),
    ensures
        key_cursor(lines, event, cursor, size).row < key_lines(lines, event, cursor).len(),
{
}

/// Backspace inside the indentation of a line takes the cursor back to a
/// multiple of the tab width, and removes nothing but whitespace.
pub proof fn law_backspace_unindents(lines: Seq<Seq<char>>, cursor: Cursor, size: TermSize)
    requires
        cursor.row < lines.len(),
        0 < cursor.col <= leading_whitespace(lines[cursor.row as int]),
    ensures
        backspaced_cursor(lines, cursor, size).col % 4 == 0,
        backspaced_cursor(lines, cursor, size).col < cursor.col <= backspaced_cursor(
            lines,
            cursor,
            size,
        ).col + 4,
        leading_whitespace(backspaced_lines(lines, cursor)[cursor.row as int]) + cursor.col
            == leading_whitespace(lines[cursor.row as int]) + backspaced_cursor(
            lines,
            cursor,
            size,
        ).col,
{
    let line = lines[cursor.row as int];
    let col = cursor.col as int;
    let to = backspaced_cursor(lines, cursor, size).col as int;
    let lead = leading_whitespace(line) as int;
    let shorter = without_range(line, to, col);
    lemma_leading_whitespace(line);
    assert(backspaced_lines(lines, cursor)[cursor.row as int] == shorter);
    assert forall|i: int| 0 <= i < lead - (col - to) implies blank_char(#[trigger] shorter[i]) by {
        if i < to {
            assert(shorter[i] == line[i]);
        } else {
            assert(shorter[i] == line[i + (col - to)]);
        }
    }
    if lead < line.len() {
        assert(shorter[lead - (col - to)] == line[lead]);
    }
    lemma_leading_whitespace_unique(shorter, lead - (col - to));
}

/// Enter keeps what stands in front of the cursor on its line, and begins the
/// line below, where the buffer has room for one, with the indentation of the
/// line it came from.
pub proof fn law_enter_keeps_indentation(lines: Seq<Seq<char>>, cursor: Cursor, size: TermSize)
    requires
        cursor.row + 1 < lines.len(),
        lines[cursor.row as int].len() > 0,
    ensures
        entered_lines(lines, cursor)[cursor.row as int] == lines[cursor.row as int].take(
            if cursor.col < lines[cursor.row as int].len() {
                cursor.col as int
            } else {
                lines[cursor.row as int].len() as int
            },
        ),
        entered_lines(lines, cursor)[cursor.row + 1].take(
            leading_whitespace(lines[cursor.row as int]) as int,
        ) == space_run(leading_whitespace(lines[cursor.row as int])),
{
    let line = lines[cursor.row as int];
    let lead = leading_whitespace(line);
    let below = entered_lines(lines, cursor)[cursor.row + 1];
    assert(below.take(lead as int) =~= space_run(lead));
}

} // verus!
