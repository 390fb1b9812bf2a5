//! Codepoints: Unicode scalar values, held as `char`.
use vstd::prelude::*;

verus! {

/// Is `u` a Unicode scalar value: at most U+10FFFF and not a surrogate.
pub open spec fn is_scalar_value(u: u32) -> bool {
    u <= 0x10FFFF && !(0xD800 <= u && u <= 0xDFFF)
}

/// A `char` holds a Unicode scalar value, which a `u32` holds exactly.
pub proof fn lemma_char_fits_u32(c: char)
    ensures
        is_scalar_value(c as u32),
        c as u32 == c as int,
{
}

/// Relies on `char::from_u32`: the char of value `u` exactly when `u` is a
/// Unicode scalar value, else `None`.
#[verifier::external_body]
pub(crate) fn char_from_u32(u: u32) -> (r: Option<char>)
    ensures
        r is Some <==> is_scalar_value(u),
        r matches Some(c) ==> c as int == u,
{
    char::from_u32(u)
}

/// Validates a raw codepoint value: the codepoint of value `u` when `u` is a
/// Unicode scalar value, `None` for a surrogate or a value past U+10FFFF.
pub fn to_codepoint(u: u32) -> (r: Option<char>)
    ensures
        r is Some <==> is_scalar_value(u),
        r matches Some(c) ==> c as int == u,
{
    char_from_u32(u)
}

} // verus!
