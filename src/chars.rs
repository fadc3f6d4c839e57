//! Character classes of the lexer, and the conversions between text and
//! character sequences.
use vstd::prelude::*;

verus! {

/// Whether a character has the Unicode `White_Space` property: tab, line
/// feed, vertical tab, form feed, carriage return, space, next line, no-break
/// space, ogham space mark, the spaces from en quad to hair space, line and
/// paragraph separator, narrow no-break space, medium mathematical space and
/// ideographic space.
pub open spec fn white_space(c: char) -> bool {
    let u = c as u32;
    ||| 0x9 <= u <= 0xd
    ||| u == 0x20 || u == 0x85 || u == 0xa0 || u == 0x1680
    ||| 0x2000 <= u <= 0x200a
    ||| u == 0x2028 || u == 0x2029 || u == 0x202f || u == 0x205f || u == 0x3000
}

/// Whether a character has the Unicode `Alphabetic` property.
pub uninterp spec fn alphabetic(c: char) -> bool;

/// Whether a character is in one of the Unicode general categories for numbers
/// (`Nd`, `Nl` or `No`).
pub uninterp spec fn numeric(c: char) -> bool;

/// Relies on `char::is_whitespace`: true exactly for the characters with the
/// `White_Space` property.
#[verifier::external_body]
pub(crate) fn is_whitespace(c: char) -> (r: bool)
    ensures
        r == white_space(c),
{
    c.is_whitespace()
}

/// Relies on `char::is_alphabetic`: true exactly for the characters with the
/// `Alphabetic` property.
#[verifier::external_body]
pub(crate) fn is_alphabetic(c: char) -> (r: bool)
    ensures
        r == alphabetic(c),
{
    c.is_alphabetic()
}

/// Relies on `char::is_numeric`: true exactly for the characters of the
/// numeric general categories.
#[verifier::external_body]
pub(crate) fn is_numeric(c: char) -> (r: bool)
    ensures
        r == numeric(c),
{
    c.is_numeric()
}

/// The punctuation that identifiers may hold besides letters and digits.
pub open spec fn extended_char(c: char) -> bool {
    c == '!' || c == '$' || c == '%' || c == '&' || c == '*' || c == '+' || c == '-' || c == '.'
        || c == '/' || c == ':' || c == '<' || c == '=' || c == '>' || c == '?' || c == '@'
        || c == '^' || c == '_' || c == '~'
}

/// A character that may stand anywhere in an identifier: a letter, a digit
/// (in the Unicode sense) or one of the extended punctuation characters.
pub open spec fn ident_char(c: char) -> bool {
    alphabetic(c) || numeric(c) || extended_char(c)
}

/// A character that may begin an identifier: as `ident_char`, but never a digit.
pub open spec fn ident_start(c: char) -> bool {
    !numeric(c) && (alphabetic(c) || extended_char(c))
}

/// Membership in the fixed set of extended identifier characters.
pub fn is_extended_ident_char(c: char) -> (r: bool)
    ensures
        r == extended_char(c),
{
    match c {
        '!' | '$' | '%' | '&' | '*' | '+' | '-' | '.' | '/' | ':' | '<' | '=' | '>' | '?' | '@'
        | '^' | '_' | '~' => true,
        _ => false,
    }
}

/// Checks whether `c` is a valid first letter of an identifier: not a number,
/// and alphabetic or an extended character.
pub fn is_valid_first_letter_ident(c: char) -> (r: bool)
    ensures
        r == ident_start(c),
{
    !is_numeric(c) && (is_alphabetic(c) || is_extended_ident_char(c))
}

/// Checks whether `c` may stand inside an identifier.
pub fn is_identifier_char(c: char) -> (r: bool)
    ensures
        r == ident_char(c),
{
    is_alphabetic(c) || is_numeric(c) || is_extended_ident_char(c)
}

/// `s` with its leading and trailing white space removed.
pub open spec fn trim_view(s: Seq<char>) -> Seq<char>
    decreases s.len(),
{
    if s.len() > 0 && white_space(s[0]) {
        trim_view(s.drop_first())
    } else if s.len() > 0 && white_space(s.last()) {
        trim_view(s.drop_last())
    } else {
        s
    }
}

/// Relies on `str::trim`: removes the leading and trailing characters with the
/// `White_Space` property.
#[verifier::external_body]
pub(crate) fn trim(s: &String) -> (r: String)
    ensures
        r@ == trim_view(s@),
{
    s.trim().to_string()
}

/// Relies on `str::chars`: the characters of `s`, in order.
#[verifier::external_body]
pub(crate) fn chars_of(s: &str) -> (r: Vec<char>)
    ensures
        r@ == s@,
{
    s.chars().collect()
}

/// Relies on `String`'s `FromIterator<&char>`: the text made of `cs`, in order.
#[verifier::external_body]
pub(crate) fn string_of(cs: &Vec<char>) -> (r: String)
    ensures
        r@ == cs@,
{
    cs.iter().collect()
}

} // verus!
