use shaping_ucd::{
    combining_class, compose, decompose, decompose_hangul, general_category,
    hb_ucd_combining_class, hb_ucd_compose, hb_ucd_decompose, hb_ucd_general_category,
    hb_ucd_is_default_ignorable, hb_ucd_is_emoji_extended_pictographic,
    hb_ucd_is_variation_selector, hb_ucd_mirroring, hb_ucd_modified_combining_class,
    hb_ucd_script, hb_ucd_space_fallback_type, is_default_ignorable,
    is_emoji_extended_pictographic, is_variation_selector, mirrored, modified_combining_class,
    script, space_fallback, to_codepoint, CharExt, Decomposition, GeneralCategory, Space,
};

#[test]
fn modified_class_is_stable_across_calls() {
    for u in [0x0301u32, 0x05B0, 0x0651, 0x0E38, 0x1037, 0x0F72, 0x41] {
        let c = char::from_u32(u).unwrap();
        assert_eq!(modified_combining_class(c), modified_combining_class(c));
        assert_eq!(c.modified_combining_class(), modified_combining_class(c));
    }
}

#[test]
fn literal_overrides_ignore_the_canonical_class() {
    assert_eq!(modified_combining_class('\u{1A60}'), 254);
    assert_eq!(modified_combining_class('\u{0FC6}'), 254);
    assert_eq!(modified_combining_class('\u{0F39}'), 127);
    assert_ne!(combining_class('\u{1A60}'), 254);
    assert_ne!(combining_class('\u{0F39}'), 127);
}

#[test]
fn tsa_phru_sorts_at_127() {
    assert_eq!(modified_combining_class('\u{0F39}'), 127);
    assert_eq!(hb_ucd_modified_combining_class(0x0F39), 127);
}

#[test]
fn per_script_permutations() {
    // Hebrew sheva (ccc 10), Arabic shadda (ccc 33), Thai sara u (ccc 103),
    // Telugu length mark (ccc 84), Tibetan sign i (ccc 130).
    assert_eq!(combining_class('\u{05B0}'), 10);
    assert_eq!(modified_combining_class('\u{05B0}'), 22);
    assert_eq!(combining_class('\u{0651}'), 33);
    assert_eq!(modified_combining_class('\u{0651}'), 27);
    assert_eq!(modified_combining_class('\u{0E38}'), 3);
    assert_eq!(modified_combining_class('\u{0C55}'), 0);
    assert_eq!(modified_combining_class('\u{0F72}'), 132);
    assert_eq!(modified_combining_class('\u{0F74}'), 131);
    // Acute accent keeps its class 230; a letter stays 0.
    assert_eq!(modified_combining_class('\u{0301}'), 230);
    assert_eq!(modified_combining_class('A'), 0);
}

#[test]
fn myanmar_dot_below_sorts_as_asat() {
    assert_eq!(combining_class('\u{1037}'), 7);
    assert_eq!(modified_combining_class('\u{1037}'), modified_combining_class('\u{103A}'));
    assert_eq!(modified_combining_class('\u{1037}'), 9);
}

#[test]
fn raw_combining_class() {
    assert_eq!(combining_class('\u{0301}'), 230);
    assert_eq!(hb_ucd_combining_class(0x0301), 230);
    assert_eq!(hb_ucd_combining_class(0x41), 0);
    assert_eq!('\u{093C}'.combining_class(), 7);
}

#[test]
fn hangul_round_trip_for_every_syllable() {
    for u in 0xAC00u32..=0xD7A3 {
        let s = char::from_u32(u).unwrap();
        match decompose(s) {
            Decomposition::Pair(a, b) => assert_eq!(compose(a, b), Some(s)),
            other => panic!("U+{:04X} decomposed into {:?}", u, other),
        }
    }
}

#[test]
fn hangul_lvt_decomposition() {
    assert_eq!(decompose('\u{AC01}'), Decomposition::Pair('\u{AC00}', '\u{11A8}'));
    assert_eq!(decompose_hangul(0xAC01), Some(('\u{AC00}', '\u{11A8}')));
}

#[test]
fn hangul_lv_decomposition() {
    assert_eq!(decompose('\u{AC00}'), Decomposition::Pair('\u{1100}', '\u{1161}'));
    assert_eq!(decompose('\u{D7A3}'), Decomposition::Pair('\u{D788}', '\u{11C2}'));
    assert_eq!(decompose_hangul(0xABFF), None);
    assert_eq!(decompose_hangul(0xD7A4), None);
}

#[test]
fn hangul_compose() {
    assert_eq!(compose('\u{1100}', '\u{1161}'), Some('\u{AC00}'));
    assert_eq!(compose('\u{AC00}', '\u{11A8}'), Some('\u{AC01}'));
    // Trailing index 0 is "no trailing consonant": nothing composes with it.
    assert_eq!(compose('\u{AC00}', '\u{11A7}'), None);
    assert_eq!(compose('\u{1100}', '\u{11A7}'), None);
    let mut ab = 7u32;
    assert_eq!(hb_ucd_compose(0xAC00, 0x11A7, &mut ab), 0);
    assert_eq!(ab, 7);
}

#[test]
fn default_ignorable_ranges_and_exceptions() {
    for u in [0x00ADu32, 0x034F, 0x061C, 0x17B4, 0x180B, 0x180E, 0x200B, 0x202E, 0x2060, 0x206F,
              0xFE00, 0xFEFF, 0xFFF0, 0xFFF8, 0x1D173, 0x1D17A, 0xE0000, 0xE0001, 0xE0FFF] {
        assert!(is_default_ignorable(char::from_u32(u).unwrap()), "U+{:04X}", u);
        assert_eq!(hb_ucd_is_default_ignorable(u), 1);
    }
    for u in [0x115Fu32, 0x1160, 0x3164, 0xFFA0, 0x1BCA0, 0x1BCA3] {
        assert!(!is_default_ignorable(char::from_u32(u).unwrap()), "U+{:04X}", u);
        assert_eq!(hb_ucd_is_default_ignorable(u), 0);
    }
    for u in [0x41u32, 0x00AC, 0x200A, 0x2070, 0xFFF9, 0xE1000, 0x10000] {
        assert!(!is_default_ignorable(char::from_u32(u).unwrap()), "U+{:04X}", u);
    }
}

#[test]
fn composition_decomposes_back() {
    assert_eq!(compose('A', '\u{0301}'), Some('\u{00C1}'));
    assert_eq!(decompose('\u{00C1}'), Decomposition::Pair('A', '\u{0301}'));
    assert_eq!(compose('e', '\u{0308}'), Some('\u{00EB}'));
    assert_eq!(decompose('\u{00EB}'), Decomposition::Pair('e', '\u{0308}'));
    assert_eq!(compose('A', 'B'), None);
    assert_eq!(compose('\u{0301}', 'A'), None);
}

#[test]
fn decompositions_of_each_arity() {
    // ANGSTROM SIGN has a singleton decomposition.
    assert_eq!(decompose('\u{212B}'), Decomposition::Single('\u{00C5}'));
    assert_eq!(decompose('A'), Decomposition::Empty);
    assert_eq!(decompose('\u{00C5}'), Decomposition::Pair('A', '\u{030A}'));
}

#[test]
fn em_space_falls_back_to_full_em() {
    assert_eq!(space_fallback('\u{2003}'), Some(Space::SpaceEm));
    assert_eq!(space_fallback('\u{0041}'), None);
    assert_eq!('\u{2003}'.space_fallback(), Some(Space::SpaceEm));
}

#[test]
fn space_fallback_classes() {
    assert_eq!(space_fallback(' '), Some(Space::Space));
    assert_eq!(space_fallback('\u{2002}'), Some(Space::SpaceEm2));
    assert_eq!(space_fallback('\u{2009}'), Some(Space::SpaceEm5));
    assert_eq!(space_fallback('\u{200A}'), Some(Space::SpaceEm16));
    assert_eq!(space_fallback('\u{202F}'), Some(Space::SpaceNarrow));
    assert_eq!(space_fallback('\u{205F}'), Some(Space::Space4Em18));
    assert_eq!(space_fallback('\u{3000}'), Some(Space::SpaceEm));
    assert_eq!(space_fallback('\u{1680}'), None);
    assert_eq!(Space::SpaceEm6.code(), 6);
    assert_eq!(Space::SpaceNarrow.code(), 21);
    assert_eq!(hb_ucd_space_fallback_type(0x2003), 1);
    assert_eq!(hb_ucd_space_fallback_type(0x20), 18);
    assert_eq!(hb_ucd_space_fallback_type(0x2007), 19);
    assert_eq!(hb_ucd_space_fallback_type(0x41), 0);
}

#[test]
fn variation_selectors() {
    assert!(is_variation_selector('\u{FE00}'));
    assert!(is_variation_selector('\u{FE0F}'));
    assert!(is_variation_selector('\u{E0100}'));
    assert!(is_variation_selector('\u{E01EF}'));
    assert!(!is_variation_selector('\u{180B}'));
    assert!(!is_variation_selector('\u{FE10}'));
    assert_eq!(hb_ucd_is_variation_selector(0xFE0F), 1);
    assert_eq!(hb_ucd_is_variation_selector(0x41), 0);
}

#[test]
fn extended_pictographic() {
    assert!(is_emoji_extended_pictographic('\u{00A9}'));
    assert!(is_emoji_extended_pictographic('\u{1F600}'));
    assert!(is_emoji_extended_pictographic('\u{1FFFD}'));
    assert!(!is_emoji_extended_pictographic('A'));
    assert!(!is_emoji_extended_pictographic('\u{1F3FB}'));
    assert_eq!(hb_ucd_is_emoji_extended_pictographic(0x2764), 1);
    assert_eq!(hb_ucd_is_emoji_extended_pictographic(0x30), 0);
}

#[test]
fn general_categories() {
    assert_eq!(general_category('A'), GeneralCategory::UppercaseLetter);
    assert_eq!(general_category('a'), GeneralCategory::LowercaseLetter);
    assert_eq!('\u{0301}'.general_category(), GeneralCategory::NonspacingMark);
    assert_eq!(hb_ucd_general_category(0x41), 9);
    assert_eq!(hb_ucd_general_category(0x61), 5);
    assert_eq!(hb_ucd_general_category(0x20), 29);
    assert_eq!(hb_ucd_general_category(0x0), 0);
    assert_eq!(GeneralCategory::from_abbreviation(b"Lu"), Some(GeneralCategory::UppercaseLetter));
    assert_eq!(GeneralCategory::from_abbreviation(b"Zs"), Some(GeneralCategory::SpaceSeparator));
    assert_eq!(GeneralCategory::from_abbreviation(b"Xx"), None);
    assert_eq!(GeneralCategory::from_abbreviation(b"L"), None);
    assert_eq!(GeneralCategory::OtherSymbol.code(), 26);
}

#[test]
fn script_tags() {
    assert_eq!(script('A'), u32::from_be_bytes(*b"Latn"));
    assert_eq!(hb_ucd_script(0x0627), u32::from_be_bytes(*b"Arab"));
    assert_eq!(hb_ucd_script(0x31), u32::from_be_bytes(*b"Zyyy"));
    assert_eq!(hb_ucd_script(0x0301), u32::from_be_bytes(*b"Zinh"));
}

#[test]
fn mirroring() {
    assert_eq!(mirrored('('), Some(')'));
    assert_eq!(')'.mirrored(), Some('('));
    assert_eq!(mirrored('A'), None);
    assert_eq!(hb_ucd_mirroring(0x2039), 0x203A);
    assert_eq!(hb_ucd_mirroring(0x41), 0);
}

#[test]
fn codepoint_validation() {
    assert_eq!(to_codepoint(0x41), Some('A'));
    assert_eq!(to_codepoint(0x10FFFF), Some('\u{10FFFF}'));
    assert_eq!(to_codepoint(0xD800), None);
    assert_eq!(to_codepoint(0xDFFF), None);
    assert_eq!(to_codepoint(0x110000), None);
}

#[test]
fn compose_through_out_parameter() {
    let mut ab = 7u32;
    assert_eq!(hb_ucd_compose(0x1100, 0x1161, &mut ab), 1);
    assert_eq!(ab, 0xAC00);
    let mut ab = 7u32;
    assert_eq!(hb_ucd_compose(0x41, 0x42, &mut ab), 0);
    assert_eq!(ab, 7);
}

#[test]
fn decompose_through_out_parameters() {
    let (mut a, mut b) = (1u32, 1u32);
    assert_eq!(hb_ucd_decompose(0xAC01, &mut a, &mut b), 1);
    assert_eq!((a, b), (0xAC00, 0x11A8));
    assert_eq!(hb_ucd_decompose(0x00C1, &mut a, &mut b), 1);
    assert_eq!((a, b), (0x41, 0x301));
    assert_eq!(hb_ucd_decompose(0x212B, &mut a, &mut b), 1);
    assert_eq!((a, b), (0xC5, 0));
    assert_eq!(hb_ucd_decompose(0x41, &mut a, &mut b), 0);
    assert_eq!((a, b), (0x41, 0));
}
