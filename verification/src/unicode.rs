//! Character properties the text layout reads: terminal display widths (from
//! the `unicode_width` crate) and the Unicode `White_Space` / alphanumeric
//! properties and case mappings (from `char`'s own methods; `White_Space` is
//! short enough to state here).

use vstd::prelude::*;

verus! {

/// The display width, in terminal columns, that `unicode_width` assigns to one
/// character (`None` for control characters).
pub uninterp spec fn char_width(c: char) -> Option<usize>;

/// The display width, in terminal columns, that `unicode_width` assigns to a
/// whole string (which may differ from the sum of its characters' widths, for
/// instance for emoji sequences and some ligatures).
pub uninterp spec fn display_width(s: Seq<char>) -> usize;

/// Whether a character has the Unicode `White_Space` property, which is what
/// `char::is_whitespace` tests: tab through carriage return, space, next line,
/// no-break space, ogham space mark, en quad through hair space, line and
/// paragraph separators, narrow no-break space, medium mathematical space and
/// ideographic space.
pub open spec fn white_space(c: char) -> bool {
    ('\u{9}' <= c && c <= '\u{d}') || c == ' ' || c == '\u{85}' || c == '\u{a0}' || c
        == '\u{1680}' || ('\u{2000}' <= c && c <= '\u{200a}') || c == '\u{2028}' || c
        == '\u{2029}' || c == '\u{202f}' || c == '\u{205f}' || c == '\u{3000}'
}

/// Whether a character is Unicode alphabetic or numeric.
pub uninterp spec fn alphanumeric(c: char) -> bool;

/// Calls `unicode_width::UnicodeWidthChar::width`; the contract only names its
/// result, which depends on the character alone.
#[verifier::external_body]
pub(crate) fn width_of_char(c: char) -> (w: Option<usize>)
    ensures
        w == char_width(c),
{
    unicode_width::UnicodeWidthChar::width(c)
}

/// Calls `unicode_width::char_iter_width` on the characters of `cs` (the same
/// computation `UnicodeWidthStr::width` performs on a string's chars); the
/// contract only names its result.
#[verifier::external_body]
pub(crate) fn width_of_chars(cs: &[char]) -> (w: usize)
    ensures
        w == display_width(cs@),
{
    unicode_width::char_iter_width(cs.iter().copied())
}

/// Whether `c` has the Unicode `White_Space` property.
pub(crate) fn is_white_space(c: char) -> (b: bool)
    ensures
        b == white_space(c),
{
    ('\u{9}' <= c && c <= '\u{d}') || c == ' ' || c == '\u{85}' || c == '\u{a0}' || c
        == '\u{1680}' || ('\u{2000}' <= c && c <= '\u{200a}') || c == '\u{2028}' || c
        == '\u{2029}' || c == '\u{202f}' || c == '\u{205f}' || c == '\u{3000}'
}

/// Calls `char::is_alphanumeric`; the contract names its result.
#[verifier::external_body]
pub(crate) fn is_alphanumeric(c: char) -> (b: bool)
    ensures
        b == alphanumeric(c),
{
    c.is_alphanumeric()
}

/// The characters `char::to_lowercase` yields for a character (Unicode's full
/// lowercase mapping; one to three characters).
pub uninterp spec fn lower_of(c: char) -> Seq<char>;

/// The characters `char::to_uppercase` yields for a character (Unicode's full
/// uppercase mapping; one to three characters).
pub uninterp spec fn upper_of(c: char) -> Seq<char>;

/// Calls `char::to_lowercase` and collects what it yields; the contract names
/// the result, which depends on the character alone.
#[verifier::external_body]
pub(crate) fn lowercase_of(c: char) -> (v: Vec<char>)
    ensures
        v@ == lower_of(c),
{
    c.to_lowercase().collect()
}

/// Calls `char::to_uppercase` and collects what it yields; the contract names
/// the result, which depends on the character alone.
#[verifier::external_body]
pub(crate) fn uppercase_of(c: char) -> (v: Vec<char>)
    ensures
        v@ == upper_of(c),
{
    c.to_uppercase().collect()
}

/// What `str::to_uppercase` returns for a string (Unicode's full uppercase
/// mapping, character by character).
pub uninterp spec fn upper_str(s: Seq<char>) -> Seq<char>;

/// What `str::to_lowercase` returns for a string (Unicode's full lowercase
/// mapping, with the final-sigma rule that looks at neighbouring characters).
pub uninterp spec fn lower_str(s: Seq<char>) -> Seq<char>;

/// Calls `str::to_uppercase`; the contract names its result, which depends on
/// the string alone.
#[verifier::external_body]
pub(crate) fn to_upper_str(s: &str) -> (r: String)
    ensures
        r@ == upper_str(s@),
{
    s.to_uppercase()
}

/// Calls `str::to_lowercase`; the contract names its result, which depends on
/// the string alone.
#[verifier::external_body]
pub(crate) fn to_lower_str(s: &str) -> (r: String)
    ensures
        r@ == lower_str(s@),
{
    s.to_lowercase()
}

} // verus!
