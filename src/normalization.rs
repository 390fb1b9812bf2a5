//! Canonical composition and decomposition, with the algorithmic Hangul
//! syllables.
use vstd::prelude::*;

use crate::codepoint::char_from_u32;

verus! {

/// First precomposed Hangul syllable.
pub const S_BASE: u32 = 0xAC00;
/// First leading consonant jamo.
pub const L_BASE: u32 = 0x1100;
/// First vowel jamo.
pub const V_BASE: u32 = 0x1161;
/// One before the first trailing consonant jamo (trailing index 0 is "none").
pub const T_BASE: u32 = 0x11A7;
pub const L_COUNT: u32 = 19;
pub const V_COUNT: u32 = 21;
pub const T_COUNT: u32 = 28;
/// Syllables sharing one leading consonant.
pub const N_COUNT: u32 = V_COUNT * T_COUNT;
/// Precomposed Hangul syllables in all.
pub const S_COUNT: u32 = L_COUNT * N_COUNT;

/// The canonical decomposition of a codepoint, as used for shaping.
#[derive(Clone, Copy, Debug, PartialEq, Eq, Structural)]
pub enum Decomposition {
    /// No canonical decomposition.
    Empty,
    /// A singleton decomposition.
    Single(char),
    /// A decomposition into two codepoints.
    Pair(char, char),
}

/// Is `u` a precomposed Hangul syllable (U+AC00 to U+D7A3).
pub open spec fn is_hangul_syllable(u: int) -> bool {
    S_BASE <= u < S_BASE + S_COUNT
}

/// The two parts of Hangul syllable `u`: the LV syllable and the trailing
/// consonant where it has one, else the leading consonant and the vowel.
pub open spec fn hangul_parts(u: int) -> (int, int) {
    let si = u - S_BASE;
    if si % (T_COUNT as int) != 0 {
        (S_BASE + (si / (T_COUNT as int)) * T_COUNT, T_BASE + si % (T_COUNT as int))
    } else {
        (L_BASE + si / (N_COUNT as int), V_BASE + (si % (N_COUNT as int)) / (T_COUNT as int))
    }
}

/// The algorithmic composition of a leading and a vowel jamo, or of an LV
/// syllable and a trailing consonant jamo (U+11A8..U+11C2), if the pair is
/// one of those.
pub open spec fn hangul_composition(a: char, b: char) -> Option<char> {
    let l = a as int;
    let v = b as int;
    if L_BASE <= l < L_BASE + L_COUNT && V_BASE <= v < V_BASE + V_COUNT {
        Some((S_BASE + (l - L_BASE) * N_COUNT + (v - V_BASE) * T_COUNT) as char)
    } else if S_BASE <= l <= S_BASE + S_COUNT - T_COUNT && T_BASE < v < T_BASE + T_COUNT && (l
        - S_BASE) % (T_COUNT as int) == 0 {
        Some((l + (v - T_BASE)) as char)
    } else {
        None
    }
}

/// The Hangul rule of `unic_ucd_hangul::compose_syllable`: the same as
/// `hangul_composition`, but for also taking U+11A7 (trailing index 0) as a
/// trailing jamo, which gives the LV syllable back unchanged.
pub open spec fn syllable_composition(a: char, b: char) -> Option<char> {
    let l = a as int;
    let v = b as int;
    if L_BASE <= l < L_BASE + L_COUNT && V_BASE <= v < V_BASE + V_COUNT {
        Some((S_BASE + (l - L_BASE) * N_COUNT + (v - V_BASE) * T_COUNT) as char)
    } else if S_BASE <= l <= S_BASE + S_COUNT - T_COUNT && T_BASE <= v < T_BASE + T_COUNT && (l
        - S_BASE) % (T_COUNT as int) == 0 {
        Some((l + (v - T_BASE)) as char)
    } else {
        None
    }
}

/// The primary composite of `a` followed by `b` in the canonical composition
/// table (which holds no Hangul syllable).
pub uninterp spec fn table_composite_of(a: char, b: char) -> Option<char>;

/// The canonical decomposition mapping of `c` in the Unicode character
/// database, if it has one.
pub uninterp spec fn canonical_decomposition_of(c: char) -> Option<Seq<char>>;

/// The primary composite of `a` followed by `b`: the Hangul composition where
/// it applies, else the canonical composition table. U+11A7, which is no
/// trailing consonant, composes with nothing.
pub open spec fn composite_of(a: char, b: char) -> Option<char> {
    match hangul_composition(a, b) {
        Some(c) => Some(c),
        None => if b as int == T_BASE {
            None
        } else {
            table_composite_of(a, b)
        },
    }
}

/// The shaping decomposition of `c`: a Hangul syllable splits by the
/// arithmetic rule; any other codepoint by its canonical decomposition mapping
/// when that holds one or two codepoints.
pub open spec fn decomposition_of(c: char) -> Decomposition {
    if is_hangul_syllable(c as int) {
        Decomposition::Pair(hangul_parts(c as int).0 as char, hangul_parts(c as int).1 as char)
    } else {
        match canonical_decomposition_of(c) {
            Some(s) => if s.len() == 1 {
                Decomposition::Single(s[0])
            } else if s.len() == 2 {
                Decomposition::Pair(s[0], s[1])
            } else {
                Decomposition::Empty
            },
            None => Decomposition::Empty,
        }
    }
}

/// Relies on `unic_ucd_normal::compose`: `compose_syllable` (the Hangul rule)
/// where it applies, else the canonical composition table, whose composites
/// are the characters that decompose canonically into the pair (UAX #15).
#[verifier::external_body]
fn compose_pair(a: char, b: char) -> (r: Option<char>)
    ensures
        syllable_composition(a, b) is Some ==> r == syllable_composition(a, b),
        syllable_composition(a, b) is None ==> r == table_composite_of(a, b),
        syllable_composition(a, b) is None ==> (r matches Some(c) ==> !is_hangul_syllable(c as int)
            && canonical_decomposition_of(c) == Some(seq![a, b])),
{
    unic_ucd_normal::compose(a, b)
}

/// Relies on `unic_ucd_normal::canonical_decomposition`: the canonical
/// decomposition mapping of `c`.
#[verifier::external_body]
fn canonical_decomposition_lookup(c: char) -> (r: Option<&'static [char]>)
    ensures
        r matches Some(s) ==> canonical_decomposition_of(c) == Some(s@),
        r is None ==> canonical_decomposition_of(c) is None,
{
    unic_ucd_normal::canonical_decomposition(c)
}

proof fn lemma_hangul_arith(si: int)
    requires
        0 <= si < S_COUNT,
    ensures
        si % (T_COUNT as int) != 0 ==> (si / (T_COUNT as int)) * T_COUNT + si % (T_COUNT as int)
            == si,
        si % (T_COUNT as int) == 0 ==> (si / (N_COUNT as int)) * N_COUNT + ((si % (N_COUNT as int))
            / (T_COUNT as int)) * T_COUNT == si,
        si / (N_COUNT as int) < L_COUNT,
        (si % (N_COUNT as int)) / (T_COUNT as int) < V_COUNT,
        (si / (T_COUNT as int)) * T_COUNT <= S_COUNT - T_COUNT,
{
    assert(N_COUNT == 588);
    assert(S_COUNT == 11172);
}

/// Splits Hangul syllable `ab` into its two parts by the arithmetic rule;
/// `None` when `ab` is no precomposed Hangul syllable.
pub fn decompose_hangul(ab: u32) -> (r: Option<(char, char)>)
    ensures
        r is Some <==> is_hangul_syllable(ab as int),
        r matches Some(p) ==> p.0 as int == hangul_parts(ab as int).0 && p.1 as int
            == hangul_parts(ab as int).1,
{
    if ab < S_BASE || ab - S_BASE >= S_COUNT {
        return None;
    }
    let si: u32 = ab - S_BASE;
    proof {
        lemma_hangul_arith(si as int);
    }
    let (a, b): (u32, u32) = if si % T_COUNT != 0 {
        (S_BASE + (si / T_COUNT) * T_COUNT, T_BASE + si % T_COUNT)
    } else {
        (L_BASE + si / N_COUNT, V_BASE + (si % N_COUNT) / T_COUNT)
    };
    let oa = char_from_u32(a);
    let ob = char_from_u32(b);
    match (oa, ob) {
        (Some(ca), Some(cb)) => Some((ca, cb)),
        _ => None,
    }
}

proof fn lemma_lv_arith(li: int, vi: int)
    requires
        0 <= li < L_COUNT,
        0 <= vi < V_COUNT,
    ensures
        0 <= li * N_COUNT + vi * T_COUNT < S_COUNT - T_COUNT + 1,
        (li * N_COUNT + vi * T_COUNT) % (T_COUNT as int) == 0,
        (li * N_COUNT + vi * T_COUNT) / (N_COUNT as int) == li,
        ((li * N_COUNT + vi * T_COUNT) % (N_COUNT as int)) / (T_COUNT as int) == vi,
{
    assert(N_COUNT == 588);
    assert(S_COUNT == 11172);
}

proof fn lemma_lvt_arith(lvi: int, ti: int)
    requires
        0 <= lvi <= S_COUNT - T_COUNT,
        lvi % (T_COUNT as int) == 0,
        0 < ti < T_COUNT,
    ensures
        0 <= lvi + ti < S_COUNT,
        (lvi + ti) % (T_COUNT as int) == ti,
        ((lvi + ti) / (T_COUNT as int)) * T_COUNT == lvi,
{
    assert(S_COUNT == 11172);
}

/// A codepoint value read back as a `char` is that codepoint.
proof fn lemma_char_round_trip(c: char)
    ensures
        (c as int) as char == c,
{
}

/// The canonical decomposition of `ab` for shaping: the Hangul rule for a
/// precomposed syllable, else its canonical decomposition mapping, kept only
/// when it holds one or two codepoints.
pub fn decompose(ab: char) -> (r: Decomposition)
    ensures
        r == decomposition_of(ab),
{
    if let Some((a, b)) = decompose_hangul(ab as u32) {
        proof {
            lemma_char_round_trip(a);
            lemma_char_round_trip(b);
        }
        return Decomposition::Pair(a, b);
    }
    match canonical_decomposition_lookup(ab) {
        Some(chars) => {
            if chars.len() == 1 {
                Decomposition::Single(chars[0])
            } else if chars.len() == 2 {
                Decomposition::Pair(chars[0], chars[1])
            } else {
                Decomposition::Empty
            }
        },
        None => Decomposition::Empty,
    }
}

/// The primary composite of `a` followed by `b`, if there is one. A
/// composite decomposes back into exactly `a` and `b`.
pub fn compose(a: char, b: char) -> (r: Option<char>)
    ensures
        r == composite_of(a, b),
        r matches Some(c) ==> decomposition_of(c) == Decomposition::Pair(a, b),
{
    // Trailing index 0 stands for "no trailing consonant": U+11A7 is no jamo
    // that an LV syllable composes with.
    if b == '\u{11A7}' {
        return None;
    }
    let r = compose_pair(a, b);
    proof {
        let l = a as int;
        let v = b as int;
        lemma_char_round_trip(a);
        lemma_char_round_trip(b);
        if L_BASE <= l < L_BASE + L_COUNT && V_BASE <= v < V_BASE + V_COUNT {
            lemma_lv_arith(l - L_BASE, v - V_BASE);
        } else if S_BASE <= l <= S_BASE + S_COUNT - T_COUNT && T_BASE < v < T_BASE + T_COUNT && (l
            - S_BASE) % (T_COUNT as int) == 0 {
            lemma_lvt_arith(l - S_BASE, v - T_BASE);
        }
    }
    r
}

/// Hangul round trip: every precomposed syllable decomposes into exactly two
/// parts, which compose back into the syllable.
pub proof fn lemma_hangul_round_trip(s: char)
    requires
        is_hangul_syllable(s as int),
    ensures
        decomposition_of(s) matches Decomposition::Pair(a, b) && composite_of(a, b) == Some(s),
{
    let si = s as int - S_BASE;
    lemma_hangul_arith(si);
    lemma_char_round_trip(s);
    let parts = hangul_parts(s as int);
    if si % (T_COUNT as int) != 0 {
        lemma_lvt_arith((si / (T_COUNT as int)) * T_COUNT, si % (T_COUNT as int));
    } else {
        lemma_lv_arith(si / (N_COUNT as int), (si % (N_COUNT as int)) / (T_COUNT as int));
    }
    assert((parts.0 as char) as int == parts.0);
    assert((parts.1 as char) as int == parts.1);
}

} // verus!
