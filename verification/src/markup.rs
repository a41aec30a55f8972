//! Text as it is written into markup: escaped, as a number, and the size of
//! a byte count in decimal units.

use crate::decimal::decimal_digits;
use vstd::prelude::*;

verus! {

/// What stands for one character in markup: the four characters that
/// markup reads as its own are written as entities, every other character
/// as itself.
pub open spec fn escaped_char(c: char) -> Seq<char> {
    if c == '&' {
        seq!['&', 'a', 'm', 'p', ';']
    } else if c == '<' {
        seq!['&', 'l', 't', ';']
    } else if c == '>' {
        seq!['&', 'g', 't', ';']
    } else if c == '"' {
        seq!['&', 'q', 'u', 'o', 't', ';']
    } else {
        seq![c]
    }
}

/// A text with each of its characters escaped.
pub open spec fn html_escaped(text: Seq<char>) -> Seq<char>
    decreases text.len(),
{
    if text.len() == 0 {
        Seq::empty()
    } else {
        html_escaped(text.drop_last()) + escaped_char(text.last())
    }
}

/// The text in which a byte count is shown: the count scaled to the largest
/// decimal unit that it reaches, with that unit's symbol.
pub uninterp spec fn decimal_size_text(bytes: u64) -> Seq<char>;

/// `maud::Render::render_to` for `str`: appends the text with `&`, `<`,
/// `>` and `"` written as `&amp;`, `&lt;`, `&gt;` and `&quot;`.
#[verifier::external_body]
pub(crate) fn push_escaped(page: &mut String, text: &str)
    ensures
        final(page)@ == old(page)@ + html_escaped(text@),
{
    maud::Render::render_to(text, page)
}

/// `maud::Render::render_to` for `u32`: appends the number in decimal
/// digits.
#[verifier::external_body]
pub(crate) fn push_number(page: &mut String, n: u32)
    ensures
        final(page)@ == old(page)@ + decimal_digits(n as nat),
{
    maud::Render::render_to(&n, page)
}

/// `humansize::format_size` with the `DECIMAL` options.
#[verifier::external_body]
pub(crate) fn format_decimal_size(bytes: u64) -> (text: String)
    ensures
        text@ == decimal_size_text(bytes),
{
    humansize::format_size(bytes, humansize::DECIMAL)
}

} // verus!
