//! Character-class queries answered by the outside Unicode tables.

use vstd::prelude::*;

verus! {

/// Whether a character has the XID_Start property.
///
/// The outside tables decide it; contracts speak of it by this name.
pub uninterp spec fn xid_start(c: char) -> bool;

/// Whether a character has the XID_Continue property.
///
/// The outside tables decide it; contracts speak of it by this name.
pub uninterp spec fn xid_continue(c: char) -> bool;

/// Relies on unicode_xid's `is_xid_start`: a lookup in the crate's
/// XID_Start table, a function of the character alone.
#[verifier::external_body]
pub fn is_xid_start(c: char) -> (r: bool)
    ensures
        r == xid_start(c),
{
    unicode_xid::UnicodeXID::is_xid_start(c)
}

/// Relies on unicode_xid's `is_xid_continue`: a lookup in the crate's
/// XID_Continue table, a function of the character alone.
#[verifier::external_body]
pub fn is_xid_continue(c: char) -> (r: bool)
    ensures
        r == xid_continue(c),
{
    unicode_xid::UnicodeXID::is_xid_continue(c)
}

/// Whether a character is in the fixed Pattern_White_Space set.
pub open spec fn pattern_white_space(c: char) -> bool {
    c == '\u{0009}' || c == '\u{000a}' || c == '\u{000b}' || c == '\u{000c}' || c == '\u{000d}'
        || c == '\u{0020}' || c == '\u{0085}' || c == '\u{200e}' || c == '\u{200f}'
        || c == '\u{2028}' || c == '\u{2029}'
}

/// Says whether a character is in the Pattern_White_Space set.
pub fn is_pattern_white_space(c: char) -> (r: bool)
    ensures
        r == pattern_white_space(c),
{
    c == '\u{0009}' || c == '\u{000a}' || c == '\u{000b}' || c == '\u{000c}' || c == '\u{000d}'
        || c == '\u{0020}' || c == '\u{0085}' || c == '\u{200e}' || c == '\u{200f}'
        || c == '\u{2028}' || c == '\u{2029}'
}

} // verus!

verus! {

/// Relies on char::from_u32 of std: the result is the character with the
/// given scalar value, or nothing where the value is a surrogate or out of
/// range.
#[verifier::external_body]
pub fn char_from_u32(v: u32) -> (r: Option<char>)
    ensures
        r == (if vstd::utf8::is_scalar(v) {
            Some(v as char)
        } else {
            None::<char>
        }),
{
    char::from_u32(v)
}

} // verus!
