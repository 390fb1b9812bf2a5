//! The codepoint-property entry points of the shaping pipeline, over raw
//! `u32` codepoints and integer codes: a category code, a script tag, 0 for
//! "no mirror" and "no space fallback", and 1 or 0 for a boolean.
use vstd::prelude::*;

use crate::category::{category_code, category_of, general_category};
use crate::classify::{
    default_ignorable, extended_pictographic, is_default_ignorable,
    is_emoji_extended_pictographic, is_variation_selector, space_code, space_fallback,
    space_fallback_of, variation_selector,
};
use crate::codepoint::{char_from_u32, is_scalar_value, lemma_char_fits_u32};
use crate::combining::{
    combining_class, combining_class_of, modified_combining_class, modified_combining_class_of,
};
use crate::normalization::{compose, composite_of, decompose, decomposition_of, Decomposition};
use crate::properties::{mirror_of, mirrored, script, script_tag_of};

verus! {

/// The codepoint of scalar value `u`.
fn codepoint(u: u32) -> (c: char)
    requires
        is_scalar_value(u),
    ensures
        c == u as char,
        c as int == u,
{
    match char_from_u32(u) {
        Some(c) => c,
        None => '\0',
    }
}

/// 1 for true, 0 for false.
pub open spec fn bool_code(b: bool) -> i32 {
    if b {
        1
    } else {
        0
    }
}

/// The canonical combining class of `u`.
pub fn hb_ucd_combining_class(u: u32) -> (r: i32)
    requires
        is_scalar_value(u),
    ensures
        r == combining_class_of(u as char),
{
    combining_class(codepoint(u)) as i32
}

/// The shaping-modified combining class of `u`.
pub fn hb_ucd_modified_combining_class(u: u32) -> (r: u32)
    requires
        is_scalar_value(u),
    ensures
        r == modified_combining_class_of(u as char),
        r != 255,
{
    modified_combining_class(codepoint(u)) as u32
}

/// The integer code of the general category of `u`.
pub fn hb_ucd_general_category(u: u32) -> (r: i32)
    requires
        is_scalar_value(u),
    ensures
        r == category_code(category_of(u as char)),
{
    general_category(codepoint(u)).code()
}

/// The ISO 15924 tag of the script of `u`.
pub fn hb_ucd_script(u: u32) -> (r: u32)
    requires
        is_scalar_value(u),
    ensures
        r == script_tag_of(u as char),
{
    script(codepoint(u))
}

/// 1 when `u` is a default ignorable that shaping hides, else 0.
pub fn hb_ucd_is_default_ignorable(u: u32) -> (r: i32)
    requires
        is_scalar_value(u),
    ensures
        r == bool_code(default_ignorable(u as char)),
{
    if is_default_ignorable(codepoint(u)) {
        1
    } else {
        0
    }
}

/// The codepoint that mirrors `u`, or 0 when it has none.
pub fn hb_ucd_mirroring(u: u32) -> (r: u32)
    requires
        is_scalar_value(u),
    ensures
        r == match mirror_of(u as char) {
            Some(m) => m as int,
            None => 0,
        },
{
    match mirrored(codepoint(u)) {
        Some(m) => {
            proof {
                lemma_char_fits_u32(m);
            }
            m as u32
        },
        None => 0,
    }
}

/// 1 when `u` is Extended_Pictographic, else 0.
pub fn hb_ucd_is_emoji_extended_pictographic(u: u32) -> (r: i32)
    requires
        is_scalar_value(u),
    ensures
        r == bool_code(extended_pictographic(u as char)),
{
    if is_emoji_extended_pictographic(codepoint(u)) {
        1
    } else {
        0
    }
}

/// The code of the space fallback class of `u`, or 0 when it has none.
pub fn hb_ucd_space_fallback_type(u: u32) -> (r: i32)
    requires
        is_scalar_value(u),
    ensures
        r == match space_fallback_of(u as char) {
            Some(s) => space_code(s),
            None => 0,
        },
{
    match space_fallback(codepoint(u)) {
        Some(s) => s.code(),
        None => 0,
    }
}

/// 1 when `u` is a variation selector, else 0.
pub fn hb_ucd_is_variation_selector(u: u32) -> (r: i32)
    requires
        is_scalar_value(u),
    ensures
        r == bool_code(variation_selector(u as char)),
{
    if is_variation_selector(codepoint(u)) {
        1
    } else {
        0
    }
}

/// Composes `a` followed by `b`: 1 with the composite stored in `ab`, or 0
/// with `ab` left as it was when the pair has no composite.
pub fn hb_ucd_compose(a: u32, b: u32, ab: &mut u32) -> (r: i32)
    requires
        is_scalar_value(a),
        is_scalar_value(b),
    ensures
        match composite_of(a as char, b as char) {
            Some(c) => r == 1 && *final(ab) == c as int,
            None => r == 0 && *final(ab) == *old(ab),
        },
{
    match compose(codepoint(a), codepoint(b)) {
        Some(c) => {
            proof {
                lemma_char_fits_u32(c);
            }
            *ab = c as u32;
            1
        },
        None => 0,
    }
}

/// Decomposes `ab` into `a` and `b`: 1 with the parts stored (and `b` set to
/// 0 for a singleton), or 0 with `a` set to `ab` and `b` to 0 when it has no
/// decomposition.
pub fn hb_ucd_decompose(ab: u32, a: &mut u32, b: &mut u32) -> (r: i32)
    requires
        is_scalar_value(ab),
    ensures
        match decomposition_of(ab as char) {
            Decomposition::Empty => r == 0 && *final(a) == ab && *final(b) == 0,
            Decomposition::Single(x) => r == 1 && *final(a) == x as int && *final(b) == 0,
            Decomposition::Pair(x, y) => r == 1 && *final(a) == x as int && *final(b) == y as int,
        },
{
    *a = ab;
    *b = 0;
    match decompose(codepoint(ab)) {
        Decomposition::Empty => 0,
        Decomposition::Single(x) => {
            *a = x as u32;
            1
        },
        Decomposition::Pair(x, y) => {
            *a = x as u32;
            *b = y as u32;
            1
        },
    }
}

} // verus!
