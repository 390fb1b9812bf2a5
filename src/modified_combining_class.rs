//! Shaping-specific combining classes that replace the Unicode ones.
//!
//! `CCCn` is the class that a mark of canonical combining class `n` is given
//! for mark reordering.
use vstd::prelude::*;

verus! {

// Hebrew: the "fixed-position" classes 10-26 are permuted into the order
// described in the SBL Hebrew manual.
pub const CCC10: u8 = 22;  // sheva
pub const CCC11: u8 = 15;  // hataf segol
pub const CCC12: u8 = 16;  // hataf patah
pub const CCC13: u8 = 17;  // hataf qamats
pub const CCC14: u8 = 23;  // hiriq
pub const CCC15: u8 = 18;  // tsere
pub const CCC16: u8 = 19;  // segol
pub const CCC17: u8 = 20;  // patah
pub const CCC18: u8 = 21;  // qamats
pub const CCC19: u8 = 14;  // holam
pub const CCC20: u8 = 24;  // qubuts
pub const CCC21: u8 = 12;  // dagesh
pub const CCC22: u8 = 25;  // meteg
pub const CCC23: u8 = 13;  // rafe
pub const CCC24: u8 = 10;  // shin dot
pub const CCC25: u8 = 11;  // sin dot
pub const CCC26: u8 = 26;  // point varika

// Arabic: Shadda (ccc=33) moves before the other marks.
pub const CCC27: u8 = 28;  // fathatan
pub const CCC28: u8 = 29;  // dammatan
pub const CCC29: u8 = 30;  // kasratan
pub const CCC30: u8 = 31;  // fatha
pub const CCC31: u8 = 32;  // damma
pub const CCC32: u8 = 33;  // kasra
pub const CCC33: u8 = 27;  // shadda
pub const CCC34: u8 = 34;  // sukun
pub const CCC35: u8 = 35;  // superscript alef

// Syriac
pub const CCC36: u8 = 36;  // superscript alaph

// Telugu: the two length marks are the only matras of the main Indic range
// with a nonzero class, which would reorder them against the virama (ccc=9).
// They are zeroed.
pub const CCC84: u8 = 0;  // length mark
pub const CCC91: u8 = 0;  // ai length mark

// Thai: U+0E38 and U+0E39 (ccc=103) go before U+0E3A (ccc=9), so they get
// class 3, which is otherwise unassigned.
pub const CCC103: u8 = 3;  // sara u / sara uu
pub const CCC107: u8 = 107;  // mai *

// Lao
pub const CCC118: u8 = 118;  // sign u / sign uu
pub const CCC122: u8 = 122;  // mai *

// Tibetan: among several vowel signs, u comes first (but after achung), so
// that Dzongkha multi-vowel shortcuts render correctly.
pub const CCC129: u8 = 129;  // sign aa
pub const CCC130: u8 = 132;  // sign i
pub const CCC132: u8 = 131;  // sign u

} // verus!
