//! Script and bidi mirroring of a codepoint, and the per-`char` view of all
//! codepoint properties.
use vstd::prelude::*;

use crate::category::{category_of, general_category, GeneralCategory};
use crate::classify::{
    default_ignorable, extended_pictographic, is_default_ignorable,
    is_emoji_extended_pictographic, is_variation_selector, space_fallback, space_fallback_of,
    variation_selector, Space,
};
use crate::combining::{
    combining_class, combining_class_of, modified_combining_class, modified_combining_class_of,
};

verus! {

/// The ISO 15924 tag of the Script property of `c`, four ASCII letters read as
/// a big-endian integer.
pub uninterp spec fn script_tag_of(c: char) -> u32;

/// The Bidi_Mirroring_Glyph of `c`, if it has one.
pub uninterp spec fn mirror_of(c: char) -> Option<char>;

/// Relies on `unicode_script::UnicodeScript::script` and
/// `Script::as_iso15924_tag`: the script of `c` (`Unknown` where the table has
/// none) as its four-letter tag in a big-endian `u32`.
#[verifier::external_body]
fn script_tag(c: char) -> (r: u32)
    ensures
        r == script_tag_of(c),
{
    unicode_script::UnicodeScript::script(&c).as_iso15924_tag()
}

/// Relies on `unicode_bidi_mirroring::get_mirrored`: the mirrored counterpart
/// of `c` in the BidiMirroring pairs, if `c` is one of a pair.
#[verifier::external_body]
fn mirrored_glyph(c: char) -> (r: Option<char>)
    ensures
        r == mirror_of(c),
{
    unicode_bidi_mirroring::get_mirrored(c)
}

/// The script of `c`, as its ISO 15924 tag.
pub fn script(c: char) -> (r: u32)
    ensures
        r == script_tag_of(c),
{
    script_tag(c)
}

/// The codepoint that mirrors `c` in right-to-left text, if there is one.
pub fn mirrored(c: char) -> (r: Option<char>)
    ensures
        r == mirror_of(c),
{
    mirrored_glyph(c)
}

/// The codepoint properties that shaping reads, as methods of a codepoint.
pub trait CharExt: Sized {
    /// The codepoint that this value stands for.
    spec fn codepoint(self) -> char;

    fn general_category(self) -> (r: GeneralCategory)
        ensures
            r == category_of(self.codepoint()),
    ;

    fn combining_class(self) -> (r: u8)
        ensures
            r == combining_class_of(self.codepoint()),
            r <= 240,
    ;

    fn space_fallback(self) -> (r: Option<Space>)
        ensures
            r == space_fallback_of(self.codepoint()),
    ;

    fn modified_combining_class(self) -> (r: u8)
        ensures
            r == modified_combining_class_of(self.codepoint()),
            r != 255,
    ;

    fn mirrored(self) -> (r: Option<char>)
        ensures
            r == mirror_of(self.codepoint()),
    ;

    fn is_emoji_extended_pictographic(self) -> (r: bool)
        ensures
            r == extended_pictographic(self.codepoint()),
    ;

    fn is_default_ignorable(self) -> (r: bool)
        ensures
            r == default_ignorable(self.codepoint()),
    ;

    fn is_variation_selector(self) -> (r: bool)
        ensures
            r == variation_selector(self.codepoint()),
    ;
}

impl CharExt for char {
    open spec fn codepoint(self) -> char {
        self
    }

    fn general_category(self) -> GeneralCategory {
        general_category(self)
    }

    fn combining_class(self) -> u8 {
        combining_class(self)
    }

    fn space_fallback(self) -> Option<Space> {
        space_fallback(self)
    }

    fn modified_combining_class(self) -> u8 {
        modified_combining_class(self)
    }

    fn mirrored(self) -> Option<char> {
        mirrored(self)
    }

    fn is_emoji_extended_pictographic(self) -> bool {
        is_emoji_extended_pictographic(self)
    }

    fn is_default_ignorable(self) -> bool {
        is_default_ignorable(self)
    }

    fn is_variation_selector(self) -> bool {
        is_variation_selector(self)
    }
}

} // verus!
