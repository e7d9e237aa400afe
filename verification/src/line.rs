//! The lines of a listing: a task's text in a column of fixed width, the
//! minute it was created in, and the position number in front.

use crate::decimal::{decimal_nat, decimal_of_u64};
use vstd::prelude::*;

verus! {

/// Width of the column that holds a task's text, in characters.
pub const TEXT_COLUMN: usize = 50;

/// The characters of each string.
pub open spec fn texts(strings: Seq<String>) -> Seq<Seq<char>> {
    strings.map_values(|string: String| string@)
}

/// `count` spaces.
pub open spec fn blanks(count: nat) -> Seq<char> {
    Seq::new(count, |i: int| ' ')
}

/// `text` in a column of `width` characters, aligned to the left: spaces
/// fill what a shorter text leaves free, and a longer text is cut behind
/// its first `width` characters.
pub open spec fn fitted(text: Seq<char>, width: nat) -> Seq<char> {
    if text.len() > width {
        text.subrange(0, width as int)
    } else {
        text + blanks((width - text.len()) as nat)
    }
}

/// The display line of a task: its text in the text column, a space, and the
/// creation stamp in square brackets.
pub open spec fn rendered(text: Seq<char>, stamp: Seq<char>) -> Seq<char> {
    fitted(text, TEXT_COLUMN as nat) + seq![' ', '['] + stamp + seq![']']
}

/// A display line behind its position: the number in decimal, a colon and a
/// space.
pub open spec fn numbered(position: nat, line: Seq<char>) -> Seq<char> {
    decimal_nat(position) + seq![':', ' '] + line
}

/// Puts `text` in a column of `width` characters: filled with spaces where
/// it is shorter, cut where it is longer.
pub fn fit(text: &str, width: usize) -> (out: String)
    ensures
        out@ == fitted(text@, width as nat),
{
    let mut length: usize = text.unicode_len();
    if length > width {
        return String::from_str(text.substring_char(0, width));
    }
    let mut out: String = String::from_str(text);
    let ghost start: nat = text@.len();
    proof {
        reveal_strlit(" ");
    }
    while length < width
        invariant
            start == text@.len(),
            start <= length <= width,
            out@ == text@ + blanks((length - start) as nat),
            " "@ == seq![' '],
        decreases width - length,
    {
        out.append(" ");
        length = length + 1;
    }
    out
}

/// Writes the display line of a task with the given text and creation stamp.
pub fn render_line(text: &str, stamp: &str) -> (line: String)
    ensures
        line@ == rendered(text@, stamp@),
{
    proof {
        reveal_strlit(" [");
        reveal_strlit("]");
    }
    let mut line: String = fit(text, TEXT_COLUMN);
    line.append(" [");
    line.append(stamp);
    line.append("]");
    line
}

/// Puts a position number in front of a display line.
pub fn number_line(position: usize, line: &str) -> (out: String)
    ensures
        out@ == numbered(position as nat, line@),
{
    proof {
        reveal_strlit(": ");
    }
    let mut out: String = decimal_of_u64(position as u64);
    out.append(": ");
    out.append(line);
    out
}

} // verus!
