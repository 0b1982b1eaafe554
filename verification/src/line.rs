//! One line of text, seen as a sequence of characters. Columns count
//! characters: column `c` of a line is the place in front of its character
//! number `c`, or its end where `c` is the line's length or more.

use vstd::prelude::*;
use crate::chars::{blank_char, is_blank_char};

verus! {

/// The number of columns that one press of Tab fills, and the grid on which
/// Backspace removes indentation.
pub const TAB_SIZE: usize = 4;

/// `col`, or the line's length where `col` lies behind the line's end.
pub open spec fn clamp_col(line: Seq<char>, col: int) -> int {
    if col < 0 {
        0
    } else if col < line.len() {
        col
    } else {
        line.len() as int
    }
}

/// `line` without its characters at the indices from `start` up to, but not
/// including, `stop`. The characters that remain keep their order. An empty
/// range, and one that begins behind the line's end, remove nothing.
pub open spec fn without_range(line: Seq<char>, start: int, stop: int) -> Seq<char> {
    if 0 <= start < stop && start < line.len() {
        line.take(start) + line.skip(clamp_col(line, stop))
    } else {
        line
    }
}

/// `line` with `text` put in at column `col`: in front of the character at
/// `col`, or at the end where `col` is the line's length or more.
pub open spec fn with_inserted(line: Seq<char>, col: int, text: Seq<char>) -> Seq<char> {
    line.take(clamp_col(line, col)) + text + line.skip(clamp_col(line, col))
}

/// The length of the longest prefix of `line` that holds whitespace only.
pub open spec fn leading_whitespace(line: Seq<char>) -> nat
    decreases line.len(),
{
    if line.len() > 0 && blank_char(line.first()) {
        1 + leading_whitespace(line.drop_first())
    } else {
        0
    }
}

/// The column just behind the last character of `line` that is no whitespace;
/// 0 where the line holds no such character.
pub open spec fn content_end(line: Seq<char>) -> nat
    decreases line.len(),
{
    if line.len() > 0 && blank_char(line.last()) {
        content_end(line.drop_last())
    } else {
        line.len()
    }
}

/// Whether `line` is empty or holds whitespace only.
pub open spec fn blank_line(line: Seq<char>) -> bool {
    forall|i: int| 0 <= i < line.len() ==> blank_char(#[trigger] line[i])
}

/// A run of `n` space characters.
pub open spec fn space_run(n: nat) -> Seq<char> {
    Seq::new(n, |i: int| ' ')
}

/// What `leading_whitespace` counts: it stays within the line, everything in
/// front of it is whitespace, and the character at it, if there is one, is not.
pub proof fn lemma_leading_whitespace(line: Seq<char>)
    ensures
        leading_whitespace(line) <= line.len(),
        forall|i: int| 0 <= i < leading_whitespace(line) ==> blank_char(#[trigger] line[i]),
        leading_whitespace(line) < line.len() ==> !blank_char(
            line[leading_whitespace(line) as int],
        ),
    decreases line.len(),
{
    if line.len() > 0 && blank_char(line.first()) {
        let rest = line.drop_first();
        lemma_leading_whitespace(rest);
        assert forall|i: int| 0 <= i < leading_whitespace(line) implies blank_char(
            #[trigger] line[i],
        ) by {
            if i > 0 {
                assert(line[i] == rest[i - 1]);
            }
        }
        if leading_whitespace(line) < line.len() {
            assert(line[leading_whitespace(line) as int] == rest[leading_whitespace(rest) as int]);
        }
    }
}

/// Only one number has the three properties of `lemma_leading_whitespace`.
pub proof fn lemma_leading_whitespace_unique(line: Seq<char>, n: int)
    requires
        0 <= n <= line.len(),
        forall|i: int| 0 <= i < n ==> blank_char(#[trigger] line[i]),
        n < line.len() ==> !blank_char(line[n]),
    ensures
        leading_whitespace(line) == n,
{
    lemma_leading_whitespace(line);
    let m = leading_whitespace(line) as int;
    if m < n {
        assert(blank_char(line[m]));
    } else if n < m {
        assert(blank_char(line[n]));
    }
}

/// What `content_end` marks: it stays within the line, everything from it on
/// is whitespace, and the character in front of it, if there is one, is not.
pub proof fn lemma_content_end(line: Seq<char>)
    ensures
        content_end(line) <= line.len(),
        forall|i: int| content_end(line) <= i < line.len() ==> blank_char(#[trigger] line[i]),
        content_end(line) > 0 ==> !blank_char(line[content_end(line) - 1]),
    decreases line.len(),
{
    if line.len() > 0 && blank_char(line.last()) {
        let rest = line.drop_last();
        lemma_content_end(rest);
        assert forall|i: int| content_end(line) <= i < line.len() implies blank_char(
            #[trigger] line[i],
        ) by {
            if i < line.len() - 1 {
                assert(line[i] == rest[i]);
            }
        }
        if content_end(line) > 0 {
            assert(line[content_end(line) - 1] == rest[content_end(rest) - 1]);
        }
    }
}

/// Only one number has the three properties of `lemma_content_end`.
pub proof fn lemma_content_end_unique(line: Seq<char>, e: int)
    requires
        0 <= e <= line.len(),
        forall|i: int| e <= i < line.len() ==> blank_char(#[trigger] line[i]),
        e > 0 ==> !blank_char(line[e - 1]),
    ensures
        content_end(line) == e,
{
    lemma_content_end(line);
    let m = content_end(line) as int;
    if m < e {
        assert(blank_char(line[e - 1]));
    } else if e < m {
        assert(blank_char(line[m - 1]));
    }
}

/// A copy of `s` without its characters at the indices from `start` up to, but
/// not including, `stop`.
pub fn remove_char(start: usize, stop: usize, s: &String) -> (result: String)
    ensures
        result@ == without_range(s@, start as int, stop as int),
{
    let line = s.as_str();
    let len = line.unicode_len();
    if start >= stop || start >= len {
        return s.clone();
    }
    let end = if stop < len { stop } else { len };
    let mut result = line.substring_char(0, start).to_owned();
    result.append(line.substring_char(end, len));
    result
}

/// A copy of `line` with `text` put in at column `col`, or at the line's end
/// where `col` is the line's length or more.
pub fn insert_text(line: &str, col: usize, text: &str) -> (result: String)
    ensures
        result@ == with_inserted(line@, col as int, text@),
{
    let len = line.unicode_len();
    let at = if col < len { col } else { len };
    let mut result = line.substring_char(0, at).to_owned();
    result.append(text);
    result.append(line.substring_char(at, len));
    result
}

/// The number of whitespace characters in front of the first character of
/// `line` that is no whitespace: the line's length where it is blank.
pub fn leading_whitespace_count(line: &str) -> (count: usize)
    ensures
        count == leading_whitespace(line@),
{
    let len = line.unicode_len();
    let mut count: usize = 0;
    while count < len && is_blank_char(line.get_char(count))
        invariant
            len == line@.len(),
            count <= len,
            forall|i: int| 0 <= i < count ==> blank_char(#[trigger] line@[i]),
        decreases len - count,
    {
        count += 1;
    }
    proof {
        lemma_leading_whitespace_unique(line@, count as int);
    }
    count
}

/// The column just behind the last character of `line` that is no whitespace.
/// On a blank line that is column 0.
pub fn trailing_content_end(line: &str) -> (column: usize)
    ensures
        column == content_end(line@),
{
    let len = line.unicode_len();
    let mut column: usize = len;
    while column > 0 && is_blank_char(line.get_char(column - 1))
        invariant
            len == line@.len(),
            column <= len,
            forall|i: int| column <= i < len ==> blank_char(#[trigger] line@[i]),
        decreases column,
    {
        column -= 1;
    }
    proof {
        lemma_content_end_unique(line@, column as int);
    }
    column
}

/// A string of `n` space characters.
pub fn spaces(n: usize) -> (result: String)
    ensures
        result@ == space_run(n as nat),
{
    let mut result = String::new();
    let mut i: usize = 0;
    while i < n
        invariant
            i <= n,
            result@ == space_run(i as nat),
        decreases n - i,
    {
        proof {
            reveal_strlit(" ");
        }
        result.append(" ");
        i += 1;
        assert(result@ =~= space_run(i as nat));
    }
    result
}

} // verus!
