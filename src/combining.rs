//! Canonical combining classes and the shaping-modified classes used to
//! reorder marks.
use vstd::prelude::*;

use crate::modified_combining_class as mcc;

verus! {

/// The Unicode canonical combining class of a codepoint, as its numeric value.
pub uninterp spec fn combining_class_of(c: char) -> u8;

/// Relies on `unicode_ccc::get_canonical_combining_class`: the canonical
/// combining class of `c`, whose enum discriminant is the class's value; the
/// largest discriminant is 240 (`IotaSubscript`).
#[verifier::external_body]
fn raw_combining_class(c: char) -> (r: u8)
    ensures
        r == combining_class_of(c),
        r <= 240,
{
    unicode_ccc::get_canonical_combining_class(c) as u8
}

/// The shaping class of a mark whose canonical combining class is `k`.
///
/// Every class keeps its value but for the per-script permutations of the
/// Hebrew, Arabic and Syriac fixed-position classes, the zeroed Telugu length
/// marks, the Thai vowel signs moved before the tone marks, and the Tibetan
/// vowel signs.
pub open spec fn modified_class(k: u8) -> u8 {
    match k {
        10 => mcc::CCC10,
        11 => mcc::CCC11,
        12 => mcc::CCC12,
        13 => mcc::CCC13,
        14 => mcc::CCC14,
        15 => mcc::CCC15,
        16 => mcc::CCC16,
        17 => mcc::CCC17,
        18 => mcc::CCC18,
        19 => mcc::CCC19,
        20 => mcc::CCC20,
        21 => mcc::CCC21,
        22 => mcc::CCC22,
        23 => mcc::CCC23,
        24 => mcc::CCC24,
        25 => mcc::CCC25,
        26 => mcc::CCC26,
        27 => mcc::CCC27,
        28 => mcc::CCC28,
        29 => mcc::CCC29,
        30 => mcc::CCC30,
        31 => mcc::CCC31,
        32 => mcc::CCC32,
        33 => mcc::CCC33,
        34 => mcc::CCC34,
        35 => mcc::CCC35,
        36 => mcc::CCC36,
        84 => mcc::CCC84,
        91 => mcc::CCC91,
        103 => mcc::CCC103,
        107 => mcc::CCC107,
        118 => mcc::CCC118,
        122 => mcc::CCC122,
        129 => mcc::CCC129,
        130 => mcc::CCC130,
        132 => mcc::CCC132,
        _ => k,
    }
}

/// A codepoint whose combining class is looked up under another codepoint's
/// (U+1037 MYANMAR SIGN DOT BELOW sorts as U+103A MYANMAR SIGN ASAT).
pub open spec fn class_alias(c: char) -> char {
    if c == '\u{1037}' {
        '\u{103A}'
    } else {
        c
    }
}

/// The literal override of a single codepoint's shaping class, if any:
/// U+1A60 TAI THAM SIGN SAKOT sorts after the tone marks, U+0FC6 TIBETAN SYMBOL
/// PADMA GDAN after the vowel signs, and U+0F39 TIBETAN MARK TSA -PHRU before
/// U+0F74.
pub open spec fn class_override(c: char) -> Option<u8> {
    if c == '\u{1A60}' {
        Some(254u8)
    } else if c == '\u{0FC6}' {
        Some(254u8)
    } else if c == '\u{0F39}' {
        Some(127u8)
    } else {
        None
    }
}

/// The shaping-modified combining class of `c`.
pub open spec fn modified_combining_class_of(c: char) -> u8 {
    match class_override(c) {
        Some(k) => k,
        None => modified_class(combining_class_of(class_alias(c))),
    }
}

/// The shaping class of a mark whose canonical combining class is `k`.
pub fn modified_class_of_raw(k: u8) -> (r: u8)
    ensures
        r == modified_class(k),
{
    match k {
        10 => mcc::CCC10,
        11 => mcc::CCC11,
        12 => mcc::CCC12,
        13 => mcc::CCC13,
        14 => mcc::CCC14,
        15 => mcc::CCC15,
        16 => mcc::CCC16,
        17 => mcc::CCC17,
        18 => mcc::CCC18,
        19 => mcc::CCC19,
        20 => mcc::CCC20,
        21 => mcc::CCC21,
        22 => mcc::CCC22,
        23 => mcc::CCC23,
        24 => mcc::CCC24,
        25 => mcc::CCC25,
        26 => mcc::CCC26,
        27 => mcc::CCC27,
        28 => mcc::CCC28,
        29 => mcc::CCC29,
        30 => mcc::CCC30,
        31 => mcc::CCC31,
        32 => mcc::CCC32,
        33 => mcc::CCC33,
        34 => mcc::CCC34,
        35 => mcc::CCC35,
        36 => mcc::CCC36,
        84 => mcc::CCC84,
        91 => mcc::CCC91,
        103 => mcc::CCC103,
        107 => mcc::CCC107,
        118 => mcc::CCC118,
        122 => mcc::CCC122,
        129 => mcc::CCC129,
        130 => mcc::CCC130,
        132 => mcc::CCC132,
        _ => k,
    }
}

/// The Unicode canonical combining class of `c`.
pub fn combining_class(c: char) -> (r: u8)
    ensures
        r == combining_class_of(c),
        r <= 240,
{
    raw_combining_class(c)
}

/// The combining class used to reorder marks while shaping: the literal
/// overrides first, then the per-script table applied to the canonical class
/// (of the aliased codepoint, for U+1037). It is never the reserved invalid
/// class 255.
pub fn modified_combining_class(c: char) -> (r: u8)
    ensures
        r == modified_combining_class_of(c),
        r != 255,
{
    let mut u = c;
    if u == '\u{1037}' {
        u = '\u{103A}';
    }
    if u == '\u{1A60}' {
        return 254;
    }
    if u == '\u{0FC6}' {
        return 254;
    }
    if u == '\u{0F39}' {
        return 127;
    }
    let k = raw_combining_class(u);
    modified_class_of_raw(k)
}

/// The shaping class is a function of the codepoint alone: two queries of the
/// same codepoint give the same class.
pub proof fn lemma_modified_class_deterministic(c: char, d: char)
    requires
        c == d,
    ensures
        modified_combining_class_of(c) == modified_combining_class_of(d),
{
}

/// The three literal overrides give their fixed class whatever the canonical
/// class of the codepoint: 254 for U+1A60 and U+0FC6, 127 for U+0F39.
pub proof fn lemma_literal_overrides()
    ensures
        modified_combining_class_of('\u{1A60}') == 254,
        modified_combining_class_of('\u{0FC6}') == 254,
        modified_combining_class_of('\u{0F39}') == 127,
{
}

/// Classes outside the per-script blocks keep their Unicode value, among them
/// the fixed classes 0-9, the attached and positional classes 200-240 and the
/// reserved class 255.
pub proof fn lemma_unlisted_classes_unchanged(k: u8)
    requires
        k < 10 || (37 <= k && k < 84) || (141 <= k),
    ensures
        modified_class(k) == k,
{
}

} // verus!
