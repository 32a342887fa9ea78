//! Building text one character at a time.

use vstd::prelude::*;

verus! {

/// Whether `c` is a Unicode scalar value: a code point that is not a
/// surrogate.
pub open spec fn is_scalar(c: u32) -> bool {
    c < 0xD800 || (0xE000 <= c && c <= 0x10FFFF)
}

/// `String::push`: appends the character at the end of the string.
#[verifier::external_body]
pub(crate) fn push_char(s: &mut String, c: char)
    ensures
        final(s)@ == old(s)@.push(c),
{
    s.push(c);
}

/// `char::from_u32`: the character with code point `c`, or `None` when
/// `c` is not a Unicode scalar value (a surrogate, or above U+10FFFF).
#[verifier::external_body]
pub(crate) fn char_from_u32(c: u32) -> (r: Option<char>)
    ensures
        r is Some <==> is_scalar(c),
        r matches Some(ch) ==> ch as u32 == c,
{
    char::from_u32(c)
}

} // verus!
