//! What the planner needs to know of a single character: how many terminal
//! columns it takes and whether it is white space.

use unicode_width::UnicodeWidthChar;
use vstd::prelude::*;

verus! {

/// The widest a single character can be, in terminal columns.
pub const MAX_WIDTH: u8 = 2;

/// The value of `unicode_width::UnicodeWidthChar::width` for `c`: the
/// character's width in columns, or `None` for a control character.
pub uninterp spec fn unicode_width(c: char) -> Option<usize>;

/// The value of `char::is_whitespace` for `c`: whether `c` has the Unicode
/// property White_Space.
pub uninterp spec fn white_space(c: char) -> bool;

/// Calls `unicode_width::UnicodeWidthChar::width`, which looks the character
/// up in the crate's tables. The contract names the result and adds that a
/// width is 0, 1 or 2: the tables hold two bits per character, and the crate
/// maps the fourth value (ambiguous width) to 1.
#[verifier::external_body]
fn char_width(c: char) -> (width: Option<usize>)
    ensures
        width == unicode_width(c),
        width matches Some(n) ==> n <= MAX_WIDTH,
{
    UnicodeWidthChar::width(c)
}

/// Calls `char::is_whitespace`. The contract only names the result.
#[verifier::external_body]
pub(crate) fn char_is_whitespace(c: char) -> (blank: bool)
    ensures
        blank == white_space(c),
{
    c.is_whitespace()
}

/// The columns that `c` takes on the terminal: its Unicode width, and 0 for
/// a character that has none.
pub open spec fn columns(c: char) -> nat {
    match unicode_width(c) {
        Some(n) => n as nat,
        None => 0,
    }
}

/// The columns that `c` takes on the terminal: 0 for a non-printing
/// character, 1 for an ordinary one, 2 for a wide one.
pub fn display_width(c: char) -> (width: u8)
    ensures
        width == columns(c),
        width <= MAX_WIDTH,
{
    match char_width(c) {
        Some(n) => n as u8,
        None => 0,
    }
}

} // verus!
