//! Single characters: which of them count as whitespace, and the string that
//! holds one of them.

use vstd::prelude::*;

verus! {

/// Whether `c` has the Unicode property `White_Space`, as `char::is_whitespace`
/// reports it.
pub uninterp spec fn white_space(c: char) -> bool;

/// Whether the editor treats `c` as whitespace: the space character, and every
/// other character with the Unicode property `White_Space`.
pub open spec fn blank_char(c: char) -> bool {
    c == ' ' || white_space(c)
}

/// `char::is_whitespace` of std. Its documentation says that it returns `true`
/// exactly for the characters with the Unicode property `White_Space`, and
/// shows that the space character is one of them. Nothing more is claimed: the
/// property's table is not restated here, it only has the name `white_space`.
/// This contract is taken on trust.
pub assume_specification[ char::is_whitespace ](c: char) -> (r: bool)
    ensures
        r == (c == ' ' || white_space(c)),
;

/// `ToString::to_string` of std on a `char`: the string that holds `c` and
/// nothing else. This contract is taken on trust.
#[verifier::external_body]
pub(crate) fn char_to_string(c: char) -> (s: String)
    ensures
        s@ == seq![c],
{
    c.to_string()
}

/// Whether `c` is whitespace.
pub fn is_blank_char(c: char) -> (r: bool)
    ensures
        r == blank_char(c),
{
    c.is_whitespace()
}

} // verus!
