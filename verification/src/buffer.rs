//! The line buffer: the text as a list of lines, top row first, and the
//! primitives that resize it, split a line in two and merge two lines into one.

use vstd::prelude::*;
use crate::line::{clamp_col, leading_whitespace, leading_whitespace_count};

verus! {

/// The editor's text. Row `r` of the screen shows `content[r]`.
pub struct Editor {
    pub content: Vec<String>,
}

/// The lines that `content` holds, each as its sequence of characters.
pub open spec fn lines_of(content: Seq<String>) -> Seq<Seq<char>> {
    Seq::new(content.len(), |i: int| content[i]@)
}

impl View for Editor {
    type V = Seq<Seq<char>>;

    open spec fn view(&self) -> Seq<Seq<char>> {
        lines_of(self.content@)
    }
}

/// `lines` cut down or filled up to `rows` lines: the first lines stay, lines
/// behind row `rows` are dropped, and missing lines are empty.
pub open spec fn resized(lines: Seq<Seq<char>>, rows: nat) -> Seq<Seq<char>> {
    Seq::new(
        rows,
        |i: int|
            if i < lines.len() {
                lines[i]
            } else {
                Seq::empty()
            },
    )
}

/// `lines` after the line at `row` was split at column `col`. The part in
/// front of the column stays at `row`; the rest, with `prefix` in front of it,
/// becomes the line at `row + 1`; the lines below move down by one and the last
/// of them is dropped, so that the number of lines stays. An empty line has
/// nothing to carry over: the line put in below it is empty too. With no line
/// at `row` nothing changes.
pub open spec fn split(lines: Seq<Seq<char>>, row: int, col: int, prefix: Seq<char>) -> Seq<
    Seq<char>,
> {
    if 0 <= row < lines.len() {
        let line = lines[row];
        let at = clamp_col(line, col);
        let tail = if line.len() == 0 {
            Seq::empty()
        } else {
            prefix + line.skip(at)
        };
        lines.update(row, line.take(at)).insert(row + 1, tail).drop_last()
    } else {
        lines
    }
}

/// `lines` after the line at `row + 1` was added to the end of the line at
/// `row` and taken out of the buffer.
pub open spec fn merged(lines: Seq<Seq<char>>, row: int) -> Seq<Seq<char>>
    recommends
        0 <= row,
        row + 1 < lines.len(),
{
    lines.update(row, lines[row] + lines[row + 1]).remove(row + 1)
}

/// The lines in one piece, with `sep` between each two of them.
pub open spec fn joined(lines: Seq<Seq<char>>, sep: Seq<char>) -> Seq<char>
    decreases lines.len(),
{
    if lines.len() == 0 {
        Seq::empty()
    } else if lines.len() == 1 {
        lines[0]
    } else {
        joined(lines.drop_last(), sep) + sep + lines.last()
    }
}

impl Editor {
    /// An editor without any line.
    pub fn new() -> (editor: Editor)
        ensures
            editor@ == Seq::<Seq<char>>::empty(),
    {
        let editor = Editor { content: Vec::new() };
        assert(editor@ =~= Seq::<Seq<char>>::empty());
        editor
    }

    /// Makes the buffer as long as the terminal is high: `rows` lines. Lines
    /// below the last row are dropped with their text; rows without a line get
    /// an empty one. The terminal's width changes nothing.
    pub fn resize(&mut self, _cols: usize, rows: usize)
        ensures
            final(self)@ == resized(old(self)@, rows as nat),
    {
        while self.content.len() < rows
            invariant
                self@.len() >= old(self)@.len(),
                self@.len() <= rows || self@.len() == old(self)@.len(),
                forall|i: int| 0 <= i < old(self)@.len() ==> self@[i] == old(self)@[i],
                forall|i: int| old(self)@.len() <= i < self@.len() ==> self@[i].len() == 0,
            decreases rows - self.content.len(),
        {
            let ghost before = self@;
            self.content.push(String::new());
            assert(self@ =~= before.push(Seq::<char>::empty()));
        }
        if self.content.len() == rows {
            assert(self@ =~= resized(old(self)@, rows as nat)) by {
                assert forall|i: int| 0 <= i < rows implies self@[i] == resized(
                    old(self)@,
                    rows as nat,
                )[i] by {
                    if i >= old(self)@.len() {
                        assert(self@[i] =~= Seq::<char>::empty());
                    }
                }
            }
            return ;
        }
        while self.content.len() > rows
            invariant
                rows <= self@.len() <= old(self)@.len(),
                forall|i: int| 0 <= i < self@.len() ==> self@[i] == old(self)@[i],
            decreases self.content.len(),
        {
            let ghost before = self@;
            self.content.pop();
            assert(self@ =~= before.drop_last());
        }
        assert(self@ =~= resized(old(self)@, rows as nat));
    }

    /// The number of whitespace characters in front of the first character of
    /// line `line_index` that is no whitespace; the line's length where the line
    /// is blank. `None` where the buffer has no such line, or where the count
    /// is no terminal column (more than `u16::MAX`). The buffer stays as it is.
    pub fn get_line_leading_spaces(&mut self, line_index: usize) -> (spaces: Option<u16>)
        ensures
            *final(self) == *old(self),
            spaces is Some <==> line_index < old(self)@.len() && leading_whitespace(
                old(self)@[line_index as int],
            ) <= u16::MAX,
            spaces is Some ==> spaces->0 == leading_whitespace(old(self)@[line_index as int]),
    {
        if line_index >= self.content.len() {
            return None;
        }
        let count = leading_whitespace_count(self.content[line_index].as_str());
        if count <= u16::MAX as usize {
            Some(count as u16)
        } else {
            None
        }
    }

    /// Adds line `line_index + 1` to the end of line `line_index` and takes it
    /// out of the buffer, which gets shorter by one line.
    pub fn merge_lines(&mut self, line_index: u16)
        requires
            line_index + 1 < old(self)@.len(),
        ensures
            final(self)@ == merged(old(self)@, line_index as int),
    {
        let row = line_index as usize;
        let mut this_line = self.content[row].clone();
        this_line.append(self.content[row + 1].as_str());
        self.content[row] = this_line;
        self.content.remove(row + 1);
        assert(self@ =~= merged(old(self)@, line_index as int));
    }

    /// Splits line `line_index` at column `character_index`, a count of
    /// characters; one behind the line's end splits at the end. The buffer keeps
    /// its number of lines: the line that was last leaves it.
    pub fn split_line(&mut self, line_index: usize, character_index: usize, new_line_prefix: &str)
        ensures
            final(self)@ == split(
                old(self)@,
                line_index as int,
                character_index as int,
                new_line_prefix@,
            ),
    {
        if line_index >= self.content.len() {
            return ;
        }
        let this_line = self.content[line_index].clone();
        let line = this_line.as_str();
        let len = line.unicode_len();
        let ghost lines = self@;
        if len == 0 {
            self.content.insert(line_index + 1, String::new());
            assert(lines[line_index as int].take(0) =~= lines[line_index as int]);
            assert(lines.update(line_index as int, lines[line_index as int]) =~= lines);
            assert(self@ =~= lines.insert(line_index + 1, Seq::<char>::empty()));
        } else {
            let at = if character_index < len {
                character_index
            } else {
                len
            };
            let first_part = line.substring_char(0, at).to_owned();
            let mut second_part = new_line_prefix.to_owned();
            second_part.append(line.substring_char(at, len));
            self.content[line_index] = first_part;
            assert(self@ =~= lines.update(line_index as int, first_part@));
            self.content.insert(line_index + 1, second_part);
            assert(self@ =~= lines.update(line_index as int, first_part@).insert(
                line_index + 1,
                second_part@,
            ));
        }
        let ghost longer = self@;
        self.content.pop();
        assert(self@ =~= longer.drop_last());
        assert(self@ =~= split(
            old(self)@,
            line_index as int,
            character_index as int,
            new_line_prefix@,
        ));
    }

    /// The whole text in one piece, with `line_ending` between each two lines:
    /// what is drawn on the screen and what is written when the text is saved.
    pub fn text(&self, line_ending: &str) -> (text: String)
        ensures
            text@ == joined(self@, line_ending@),
    {
        let mut text = String::new();
        let mut i: usize = 0;
        while i < self.content.len()
            invariant
                i <= self@.len(),
                self@.len() == self.content@.len(),
                text@ == joined(self@.take(i as int), line_ending@),
            decreases self.content.len() - i,
        {
            let ghost done = self@.take(i as int);
            let ghost next = self@.take(i + 1);
            assert(next.drop_last() =~= done);
            assert(next.last() == self@[i as int]);
            if i > 0 {
                text.append(line_ending);
            }
            text.append(self.content[i].as_str());
            assert(text@ =~= joined(next, line_ending@));
            i += 1;
        }
        assert(self@.take(i as int) =~= self@);
        text
    }
}

} // verus!
