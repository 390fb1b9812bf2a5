//! Codepoint predicates: default ignorables, variation selectors, extended
//! pictographics and space fallbacks.
use vstd::prelude::*;

verus! {

/// Width class of a space character, used to render it from the font's
/// regular space when the font lacks a glyph for it.
#[derive(Clone, Copy, Debug, PartialEq, Eq, Structural)]
pub enum Space {
    /// One em.
    SpaceEm,
    /// 1/2 em.
    SpaceEm2,
    /// 1/3 em.
    SpaceEm3,
    /// 1/4 em.
    SpaceEm4,
    /// 1/5 em.
    SpaceEm5,
    /// 1/6 em.
    SpaceEm6,
    /// 1/16 em.
    SpaceEm16,
    /// 4/18 em.
    Space4Em18,
    /// The width of the regular space.
    Space,
    /// The width of a digit.
    SpaceFigure,
    /// The width of a period.
    SpacePunctuation,
    /// A narrow space.
    SpaceNarrow,
}

/// The integer code of a space class: the em divisor for the fractional-em
/// classes, then 17 to 21.
pub open spec fn space_code(s: Space) -> i32 {
    match s {
        Space::SpaceEm => 1,
        Space::SpaceEm2 => 2,
        Space::SpaceEm3 => 3,
        Space::SpaceEm4 => 4,
        Space::SpaceEm5 => 5,
        Space::SpaceEm6 => 6,
        Space::SpaceEm16 => 16,
        Space::Space4Em18 => 17,
        Space::Space => 18,
        Space::SpaceFigure => 19,
        Space::SpacePunctuation => 20,
        Space::SpaceNarrow => 21,
    }
}

impl Space {
    /// The integer code of this class.
    pub fn code(self) -> (r: i32)
        ensures
            r == space_code(self),
    {
        match self {
            Space::SpaceEm => 1,
            Space::SpaceEm2 => 2,
            Space::SpaceEm3 => 3,
            Space::SpaceEm4 => 4,
            Space::SpaceEm5 => 5,
            Space::SpaceEm6 => 6,
            Space::SpaceEm16 => 16,
            Space::Space4Em18 => 17,
            Space::Space => 18,
            Space::SpaceFigure => 19,
            Space::SpacePunctuation => 20,
            Space::SpaceNarrow => 21,
        }
    }
}

/// The fallback class of each space separator that has one; `None` for every
/// other codepoint (U+1680 OGHAM SPACE MARK among them).
pub open spec fn space_fallback_of(c: char) -> Option<Space> {
    let u = c as int;
    if u == 0x0020 || u == 0x00A0 {
        Some(Space::Space)  // SPACE, NO-BREAK SPACE
    } else if u == 0x2000 || u == 0x2002 {
        Some(Space::SpaceEm2)  // EN QUAD, EN SPACE
    } else if u == 0x2001 || u == 0x2003 || u == 0x3000 {
        Some(Space::SpaceEm)  // EM QUAD, EM SPACE, IDEOGRAPHIC SPACE
    } else if u == 0x2004 {
        Some(Space::SpaceEm3)  // THREE-PER-EM SPACE
    } else if u == 0x2005 {
        Some(Space::SpaceEm4)  // FOUR-PER-EM SPACE
    } else if u == 0x2006 {
        Some(Space::SpaceEm6)  // SIX-PER-EM SPACE
    } else if u == 0x2007 {
        Some(Space::SpaceFigure)  // FIGURE SPACE
    } else if u == 0x2008 {
        Some(Space::SpacePunctuation)  // PUNCTUATION SPACE
    } else if u == 0x2009 {
        Some(Space::SpaceEm5)  // THIN SPACE
    } else if u == 0x200A {
        Some(Space::SpaceEm16)  // HAIR SPACE
    } else if u == 0x202F {
        Some(Space::SpaceNarrow)  // NARROW NO-BREAK SPACE
    } else if u == 0x205F {
        Some(Space::Space4Em18)  // MEDIUM MATHEMATICAL SPACE
    } else {
        None
    }
}

/// The width class to render space character `c` with.
pub fn space_fallback(c: char) -> (r: Option<Space>)
    ensures
        r == space_fallback_of(c),
{
    match c {
        '\u{0020}' => Some(Space::Space),  // SPACE
        '\u{00A0}' => Some(Space::Space),  // NO-BREAK SPACE
        '\u{2000}' => Some(Space::SpaceEm2),  // EN QUAD
        '\u{2001}' => Some(Space::SpaceEm),  // EM QUAD
        '\u{2002}' => Some(Space::SpaceEm2),  // EN SPACE
        '\u{2003}' => Some(Space::SpaceEm),  // EM SPACE
        '\u{2004}' => Some(Space::SpaceEm3),  // THREE-PER-EM SPACE
        '\u{2005}' => Some(Space::SpaceEm4),  // FOUR-PER-EM SPACE
        '\u{2006}' => Some(Space::SpaceEm6),  // SIX-PER-EM SPACE
        '\u{2007}' => Some(Space::SpaceFigure),  // FIGURE SPACE
        '\u{2008}' => Some(Space::SpacePunctuation),  // PUNCTUATION SPACE
        '\u{2009}' => Some(Space::SpaceEm5),  // THIN SPACE
        '\u{200A}' => Some(Space::SpaceEm16),  // HAIR SPACE
        '\u{202F}' => Some(Space::SpaceNarrow),  // NARROW NO-BREAK SPACE
        '\u{205F}' => Some(Space::Space4Em18),  // MEDIUM MATHEMATICAL SPACE
        '\u{3000}' => Some(Space::SpaceEm),  // IDEOGRAPHIC SPACE
        _ => None,
    }
}

/// The Default_Ignorable_Code_Point ranges of the Unicode character database
/// (DerivedCoreProperties, Unicode 7.0).
pub open spec fn in_default_ignorable_ranges(u: int) -> bool {
    u == 0x00AD  // SOFT HYPHEN
    || u == 0x034F  // COMBINING GRAPHEME JOINER
    || u == 0x061C  // ARABIC LETTER MARK
    || (0x115F <= u && u <= 0x1160)  // HANGUL CHOSEONG FILLER..HANGUL JUNGSEONG FILLER
    || (0x17B4 <= u && u <= 0x17B5)  // KHMER VOWEL INHERENT AQ..AA
    || (0x180B <= u && u <= 0x180E)  // MONGOLIAN FVS ONE..THREE, VOWEL SEPARATOR
    || (0x200B <= u && u <= 0x200F)  // ZERO WIDTH SPACE..RIGHT-TO-LEFT MARK
    || (0x202A <= u && u <= 0x202E)  // LEFT-TO-RIGHT EMBEDDING..RIGHT-TO-LEFT OVERRIDE
    || (0x2060 <= u && u <= 0x206F)  // WORD JOINER..NOMINAL DIGIT SHAPES
    || u == 0x3164  // HANGUL FILLER
    || (0xFE00 <= u && u <= 0xFE0F)  // VARIATION SELECTOR-1..16
    || u == 0xFEFF  // ZERO WIDTH NO-BREAK SPACE
    || u == 0xFFA0  // HALFWIDTH HANGUL FILLER
    || (0xFFF0 <= u && u <= 0xFFF8)  // reserved
    || (0x1BCA0 <= u && u <= 0x1BCA3)  // SHORTHAND FORMAT LETTER OVERLAP..UP STEP
    || (0x1D173 <= u && u <= 0x1D17A)  // MUSICAL SYMBOL BEGIN BEAM..END PHRASE
    || (0xE0000 <= u && u <= 0xE0FFF)  // LANGUAGE TAG, TAGS, VARIATION SELECTOR-17..256, reserved
}

/// The Hangul fillers: default ignorable, but fonts draw them as regular
/// spacing glyphs, so they are not hidden.
pub open spec fn is_hangul_filler(u: int) -> bool {
    u == 0x115F || u == 0x1160 || u == 0x3164 || u == 0xFFA0
}

/// The shorthand format controls U+1BCA0..U+1BCA3, which are not hidden either.
pub open spec fn is_shorthand_format_control(u: int) -> bool {
    0x1BCA0 <= u && u <= 0x1BCA3
}

/// Is `c` hidden by default: in the Default_Ignorable ranges, but for the
/// Hangul fillers and the shorthand format controls.
pub open spec fn default_ignorable(c: char) -> bool {
    let u = c as int;
    in_default_ignorable_ranges(u) && !is_hangul_filler(u) && !is_shorthand_format_control(u)
}

proof fn lemma_shifts(ch: u32)
    ensures
        ch >> 16u32 == ch / 0x10000u32,
        ch >> 8u32 == ch / 0x100u32,
{
    assert(ch >> 16u32 == ch / 0x10000u32) by (bit_vector);
    assert(ch >> 8u32 == ch / 0x100u32) by (bit_vector);
}

/// Is `c` a default-ignorable codepoint that shaping hides.
pub fn is_default_ignorable(c: char) -> (r: bool)
    ensures
        r == default_ignorable(c),
{
    let ch = c as u32;
    proof {
        lemma_shifts(ch);
    }
    let plane = ch >> 16;
    if plane == 0 {
        // Basic Multilingual Plane
        let page = ch >> 8;
        match page {
            0x00 => ch == 0x00AD,
            0x03 => ch == 0x034F,
            0x06 => ch == 0x061C,
            0x17 => 0x17B4 <= ch && ch <= 0x17B5,
            0x18 => 0x180B <= ch && ch <= 0x180E,
            0x20 => (0x200B <= ch && ch <= 0x200F) || (0x202A <= ch && ch <= 0x202E) || (0x2060
                <= ch && ch <= 0x206F),
            0xFE => (0xFE00 <= ch && ch <= 0xFE0F) || ch == 0xFEFF,
            0xFF => 0xFFF0 <= ch && ch <= 0xFFF8,
            _ => false,
        }
    } else {
        // Other planes
        match plane {
            0x01 => 0x1D173 <= ch && ch <= 0x1D17A,
            0x0E => 0xE0000 <= ch && ch <= 0xE0FFF,
            _ => false,
        }
    }
}

/// The variation selectors VS1-VS16 and VS17-VS256. The Mongolian free
/// variation selectors are left to the script shaper.
pub open spec fn variation_selector(c: char) -> bool {
    let u = c as int;
    (0xFE00 <= u && u <= 0xFE0F) || (0xE0100 <= u && u <= 0xE01EF)
}

/// Is `c` a variation selector.
pub fn is_variation_selector(c: char) -> (r: bool)
    ensures
        r == variation_selector(c),
{
    let ch = c as u32;
    (0x0FE00 <= ch && ch <= 0x0FE0F)  // VARIATION SELECTOR-1..16
    || (0xE0100 <= ch && ch <= 0xE01EF)  // VARIATION SELECTOR-17..256
}

/// The Extended_Pictographic ranges of the Unicode emoji data.
pub open spec fn extended_pictographic(c: char) -> bool {
    let u = c as int;
        u == 0x00A9
        || u == 0x00AE
        || u == 0x203C
        || u == 0x2049
        || u == 0x2122
        || u == 0x2139
        || (0x2194 <= u && u <= 0x2199)
        || (0x21A9 <= u && u <= 0x21AA)
        || (0x231A <= u && u <= 0x231B)
        || u == 0x2328
        || u == 0x2388
        || u == 0x23CF
        || (0x23E9 <= u && u <= 0x23F3)
        || (0x23F8 <= u && u <= 0x23FA)
        || u == 0x24C2
        || (0x25AA <= u && u <= 0x25AB)
        || u == 0x25B6
        || u == 0x25C0
        || (0x25FB <= u && u <= 0x25FE)
        || (0x2600 <= u && u <= 0x2605)
        || (0x2607 <= u && u <= 0x2612)
        || (0x2614 <= u && u <= 0x2685)
        || (0x2690 <= u && u <= 0x2705)
        || (0x2708 <= u && u <= 0x2712)
        || u == 0x2714
        || u == 0x2716
        || u == 0x271D
        || u == 0x2721
        || u == 0x2728
        || (0x2733 <= u && u <= 0x2734)
        || u == 0x2744
        || u == 0x2747
        || u == 0x274C
        || u == 0x274E
        || (0x2753 <= u && u <= 0x2755)
        || u == 0x2757
        || (0x2763 <= u && u <= 0x2767)
        || (0x2795 <= u && u <= 0x2797)
        || u == 0x27A1
        || u == 0x27B0
        || u == 0x27BF
        || (0x2934 <= u && u <= 0x2935)
        || (0x2B05 <= u && u <= 0x2B07)
        || (0x2B1B <= u && u <= 0x2B1C)
        || u == 0x2B50
        || u == 0x2B55
        || u == 0x3030
        || u == 0x303D
        || u == 0x3297
        || u == 0x3299
        || (0x1F000 <= u && u <= 0x1F0FF)
        || (0x1F10D <= u && u <= 0x1F10F)
        || u == 0x1F12F
        || (0x1F16C <= u && u <= 0x1F171)
        || (0x1F17E <= u && u <= 0x1F17F)
        || u == 0x1F18E
        || (0x1F191 <= u && u <= 0x1F19A)
        || (0x1F1AD <= u && u <= 0x1F1E5)
        || (0x1F201 <= u && u <= 0x1F20F)
        || u == 0x1F21A
        || u == 0x1F22F
        || (0x1F232 <= u && u <= 0x1F23A)
        || (0x1F23C <= u && u <= 0x1F23F)
        || (0x1F249 <= u && u <= 0x1F3FA)
        || (0x1F400 <= u && u <= 0x1F53D)
        || (0x1F546 <= u && u <= 0x1F64F)
        || (0x1F680 <= u && u <= 0x1F6FF)
        || (0x1F774 <= u && u <= 0x1F77F)
        || (0x1F7D5 <= u && u <= 0x1F7FF)
        || (0x1F80C <= u && u <= 0x1F80F)
        || (0x1F848 <= u && u <= 0x1F84F)
        || (0x1F85A <= u && u <= 0x1F85F)
        || (0x1F888 <= u && u <= 0x1F88F)
        || (0x1F8AE <= u && u <= 0x1F8FF)
        || (0x1F90C <= u && u <= 0x1F93A)
        || (0x1F93C <= u && u <= 0x1F945)
        || (0x1F947 <= u && u <= 0x1FFFD)
}

/// Can `c` begin an emoji grapheme cluster (Extended_Pictographic).
pub fn is_emoji_extended_pictographic(c: char) -> (r: bool)
    ensures
        r == extended_pictographic(c),
{
    match c as u32 {
        0x00A9 => true,
        0x00AE => true,
        0x203C => true,
        0x2049 => true,
        0x2122 => true,
        0x2139 => true,
        0x2194..=0x2199 => true,
        0x21A9..=0x21AA => true,
        0x231A..=0x231B => true,
        0x2328 => true,
        0x2388 => true,
        0x23CF => true,
        0x23E9..=0x23F3 => true,
        0x23F8..=0x23FA => true,
        0x24C2 => true,
        0x25AA..=0x25AB => true,
        0x25B6 => true,
        0x25C0 => true,
        0x25FB..=0x25FE => true,
        0x2600..=0x2605 => true,
        0x2607..=0x2612 => true,
        0x2614..=0x2685 => true,
        0x2690..=0x2705 => true,
        0x2708..=0x2712 => true,
        0x2714 => true,
        0x2716 => true,
        0x271D => true,
        0x2721 => true,
        0x2728 => true,
        0x2733..=0x2734 => true,
        0x2744 => true,
        0x2747 => true,
        0x274C => true,
        0x274E => true,
        0x2753..=0x2755 => true,
        0x2757 => true,
        0x2763..=0x2767 => true,
        0x2795..=0x2797 => true,
        0x27A1 => true,
        0x27B0 => true,
        0x27BF => true,
        0x2934..=0x2935 => true,
        0x2B05..=0x2B07 => true,
        0x2B1B..=0x2B1C => true,
        0x2B50 => true,
        0x2B55 => true,
        0x3030 => true,
        0x303D => true,
        0x3297 => true,
        0x3299 => true,
        0x1F000..=0x1F0FF => true,
        0x1F10D..=0x1F10F => true,
        0x1F12F => true,
        0x1F16C..=0x1F171 => true,
        0x1F17E..=0x1F17F => true,
        0x1F18E => true,
        0x1F191..=0x1F19A => true,
        0x1F1AD..=0x1F1E5 => true,
        0x1F201..=0x1F20F => true,
        0x1F21A => true,
        0x1F22F => true,
        0x1F232..=0x1F23A => true,
        0x1F23C..=0x1F23F => true,
        0x1F249..=0x1F3FA => true,
        0x1F400..=0x1F53D => true,
        0x1F546..=0x1F64F => true,
        0x1F680..=0x1F6FF => true,
        0x1F774..=0x1F77F => true,
        0x1F7D5..=0x1F7FF => true,
        0x1F80C..=0x1F80F => true,
        0x1F848..=0x1F84F => true,
        0x1F85A..=0x1F85F => true,
        0x1F888..=0x1F88F => true,
        0x1F8AE..=0x1F8FF => true,
        0x1F90C..=0x1F93A => true,
        0x1F93C..=0x1F945 => true,
        0x1F947..=0x1FFFD => true,
        _ => false,
    }
}

/// Default ignorables are hidden but for the four Hangul fillers, which never
/// are. The shorthand format controls, also kept visible, are left out.
pub proof fn lemma_default_ignorable_exceptions(c: char)
    requires
        in_default_ignorable_ranges(c as int),
        !is_shorthand_format_control(c as int),
    ensures
        default_ignorable(c) <==> !(c as int == 0x115F || c as int == 0x1160 || c as int == 0x3164
            || c as int == 0xFFA0),
{
}

} // verus!
