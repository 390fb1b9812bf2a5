//! Unicode general categories.
use vstd::prelude::*;

verus! {

/// The Unicode general category of a codepoint.
#[derive(Clone, Copy, Debug, PartialEq, Eq, Structural)]
pub enum GeneralCategory {
    ClosePunctuation,
    ConnectorPunctuation,
    Control,
    CurrencySymbol,
    DashPunctuation,
    DecimalNumber,
    EnclosingMark,
    FinalPunctuation,
    Format,
    InitialPunctuation,
    LetterNumber,
    LineSeparator,
    LowercaseLetter,
    MathSymbol,
    ModifierLetter,
    ModifierSymbol,
    NonspacingMark,
    OpenPunctuation,
    OtherLetter,
    OtherNumber,
    OtherPunctuation,
    OtherSymbol,
    ParagraphSeparator,
    PrivateUse,
    SpaceSeparator,
    SpacingMark,
    Surrogate,
    TitlecaseLetter,
    Unassigned,
    UppercaseLetter,
}

/// The two-letter abbreviation of a general category, as ASCII bytes.
pub open spec fn abbreviation(g: GeneralCategory) -> Seq<u8> {
    match g {
        GeneralCategory::ClosePunctuation => seq![0x50u8, 0x65u8],  // Pe
        GeneralCategory::ConnectorPunctuation => seq![0x50u8, 0x63u8],  // Pc
        GeneralCategory::Control => seq![0x43u8, 0x63u8],  // Cc
        GeneralCategory::CurrencySymbol => seq![0x53u8, 0x63u8],  // Sc
        GeneralCategory::DashPunctuation => seq![0x50u8, 0x64u8],  // Pd
        GeneralCategory::DecimalNumber => seq![0x4Eu8, 0x64u8],  // Nd
        GeneralCategory::EnclosingMark => seq![0x4Du8, 0x65u8],  // Me
        GeneralCategory::FinalPunctuation => seq![0x50u8, 0x66u8],  // Pf
        GeneralCategory::Format => seq![0x43u8, 0x66u8],  // Cf
        GeneralCategory::InitialPunctuation => seq![0x50u8, 0x69u8],  // Pi
        GeneralCategory::LetterNumber => seq![0x4Eu8, 0x6Cu8],  // Nl
        GeneralCategory::LineSeparator => seq![0x5Au8, 0x6Cu8],  // Zl
        GeneralCategory::LowercaseLetter => seq![0x4Cu8, 0x6Cu8],  // Ll
        GeneralCategory::MathSymbol => seq![0x53u8, 0x6Du8],  // Sm
        GeneralCategory::ModifierLetter => seq![0x4Cu8, 0x6Du8],  // Lm
        GeneralCategory::ModifierSymbol => seq![0x53u8, 0x6Bu8],  // Sk
        GeneralCategory::NonspacingMark => seq![0x4Du8, 0x6Eu8],  // Mn
        GeneralCategory::OpenPunctuation => seq![0x50u8, 0x73u8],  // Ps
        GeneralCategory::OtherLetter => seq![0x4Cu8, 0x6Fu8],  // Lo
        GeneralCategory::OtherNumber => seq![0x4Eu8, 0x6Fu8],  // No
        GeneralCategory::OtherPunctuation => seq![0x50u8, 0x6Fu8],  // Po
        GeneralCategory::OtherSymbol => seq![0x53u8, 0x6Fu8],  // So
        GeneralCategory::ParagraphSeparator => seq![0x5Au8, 0x70u8],  // Zp
        GeneralCategory::PrivateUse => seq![0x43u8, 0x6Fu8],  // Co
        GeneralCategory::SpaceSeparator => seq![0x5Au8, 0x73u8],  // Zs
        GeneralCategory::SpacingMark => seq![0x4Du8, 0x63u8],  // Mc
        GeneralCategory::Surrogate => seq![0x43u8, 0x73u8],  // Cs
        GeneralCategory::TitlecaseLetter => seq![0x4Cu8, 0x74u8],  // Lt
        GeneralCategory::Unassigned => seq![0x43u8, 0x6Eu8],  // Cn
        GeneralCategory::UppercaseLetter => seq![0x4Cu8, 0x75u8],  // Lu
    }
}

/// The integer code of a general category in the shaping pipeline's
/// vocabulary: control and format codes first, then letters, marks, numbers,
/// punctuation, symbols and separators.
pub open spec fn category_code(g: GeneralCategory) -> i32 {
    match g {
        GeneralCategory::ClosePunctuation => 18,
        GeneralCategory::ConnectorPunctuation => 16,
        GeneralCategory::Control => 0,
        GeneralCategory::CurrencySymbol => 23,
        GeneralCategory::DashPunctuation => 17,
        GeneralCategory::DecimalNumber => 13,
        GeneralCategory::EnclosingMark => 11,
        GeneralCategory::FinalPunctuation => 19,
        GeneralCategory::Format => 1,
        GeneralCategory::InitialPunctuation => 20,
        GeneralCategory::LetterNumber => 14,
        GeneralCategory::LineSeparator => 27,
        GeneralCategory::LowercaseLetter => 5,
        GeneralCategory::MathSymbol => 25,
        GeneralCategory::ModifierLetter => 6,
        GeneralCategory::ModifierSymbol => 24,
        GeneralCategory::NonspacingMark => 12,
        GeneralCategory::OpenPunctuation => 22,
        GeneralCategory::OtherLetter => 7,
        GeneralCategory::OtherNumber => 15,
        GeneralCategory::OtherPunctuation => 21,
        GeneralCategory::OtherSymbol => 26,
        GeneralCategory::ParagraphSeparator => 28,
        GeneralCategory::PrivateUse => 3,
        GeneralCategory::SpaceSeparator => 29,
        GeneralCategory::SpacingMark => 10,
        GeneralCategory::Surrogate => 4,
        GeneralCategory::TitlecaseLetter => 8,
        GeneralCategory::Unassigned => 2,
        GeneralCategory::UppercaseLetter => 9,
    }
}

/// The abbreviation of the general category of `c` in the Unicode character
/// database.
pub uninterp spec fn category_abbreviation_of(c: char) -> Seq<u8>;

/// The general category of `c`: the one whose abbreviation the Unicode
/// character database gives for `c`.
pub open spec fn category_of(c: char) -> GeneralCategory {
    choose|g: GeneralCategory| abbreviation(g) == category_abbreviation_of(c)
}

/// No two categories share an abbreviation.
pub proof fn lemma_abbreviation_injective(g: GeneralCategory, h: GeneralCategory)
    requires
        abbreviation(g) == abbreviation(h),
    ensures
        g == h,
{
    assert(abbreviation(g)[0] == abbreviation(h)[0]);
    assert(abbreviation(g)[1] == abbreviation(h)[1]);
}

/// Relies on `unicode_general_category::get_general_category` and
/// `GeneralCategory::abbreviation`: the two-letter abbreviation of the general
/// category of `c`, one of the thirty that `abbreviation` lists.
#[verifier::external_body]
fn general_category_abbreviation(c: char) -> (r: &'static [u8])
    ensures
        r@ == category_abbreviation_of(c),
        exists|g: GeneralCategory| abbreviation(g) == r@,
{
    unicode_general_category::get_general_category(c).abbreviation().as_bytes()
}

impl GeneralCategory {
    /// The category whose two-letter abbreviation is `a`, if any.
    pub fn from_abbreviation(a: &[u8]) -> (r: Option<GeneralCategory>)
        ensures
            r matches Some(g) ==> abbreviation(g) == a@,
            r is None <==> forall|g: GeneralCategory| abbreviation(g) != a@,
    {
        if a.len() != 2 {
            proof {
                assert forall|g: GeneralCategory| abbreviation(g) != a@ by {
                    assert(abbreviation(g).len() == 2);
                }
            }
            return None;
        }
        let r = match (a[0], a[1]) {
            (0x50, 0x65) => Some(GeneralCategory::ClosePunctuation),  // Pe
            (0x50, 0x63) => Some(GeneralCategory::ConnectorPunctuation),  // Pc
            (0x43, 0x63) => Some(GeneralCategory::Control),  // Cc
            (0x53, 0x63) => Some(GeneralCategory::CurrencySymbol),  // Sc
            (0x50, 0x64) => Some(GeneralCategory::DashPunctuation),  // Pd
            (0x4E, 0x64) => Some(GeneralCategory::DecimalNumber),  // Nd
            (0x4D, 0x65) => Some(GeneralCategory::EnclosingMark),  // Me
            (0x50, 0x66) => Some(GeneralCategory::FinalPunctuation),  // Pf
            (0x43, 0x66) => Some(GeneralCategory::Format),  // Cf
            (0x50, 0x69) => Some(GeneralCategory::InitialPunctuation),  // Pi
            (0x4E, 0x6C) => Some(GeneralCategory::LetterNumber),  // Nl
            (0x5A, 0x6C) => Some(GeneralCategory::LineSeparator),  // Zl
            (0x4C, 0x6C) => Some(GeneralCategory::LowercaseLetter),  // Ll
            (0x53, 0x6D) => Some(GeneralCategory::MathSymbol),  // Sm
            (0x4C, 0x6D) => Some(GeneralCategory::ModifierLetter),  // Lm
            (0x53, 0x6B) => Some(GeneralCategory::ModifierSymbol),  // Sk
            (0x4D, 0x6E) => Some(GeneralCategory::NonspacingMark),  // Mn
            (0x50, 0x73) => Some(GeneralCategory::OpenPunctuation),  // Ps
            (0x4C, 0x6F) => Some(GeneralCategory::OtherLetter),  // Lo
            (0x4E, 0x6F) => Some(GeneralCategory::OtherNumber),  // No
            (0x50, 0x6F) => Some(GeneralCategory::OtherPunctuation),  // Po
            (0x53, 0x6F) => Some(GeneralCategory::OtherSymbol),  // So
            (0x5A, 0x70) => Some(GeneralCategory::ParagraphSeparator),  // Zp
            (0x43, 0x6F) => Some(GeneralCategory::PrivateUse),  // Co
            (0x5A, 0x73) => Some(GeneralCategory::SpaceSeparator),  // Zs
            (0x4D, 0x63) => Some(GeneralCategory::SpacingMark),  // Mc
            (0x43, 0x73) => Some(GeneralCategory::Surrogate),  // Cs
            (0x4C, 0x74) => Some(GeneralCategory::TitlecaseLetter),  // Lt
            (0x43, 0x6E) => Some(GeneralCategory::Unassigned),  // Cn
            (0x4C, 0x75) => Some(GeneralCategory::UppercaseLetter),  // Lu
            _ => None,
        };
        proof {
            if r is None {
                assert forall|g: GeneralCategory| abbreviation(g) != a@ by {
                    if abbreviation(g) == a@ {
                        assert(abbreviation(g)[0] == a@[0] && abbreviation(g)[1] == a@[1]);
                    }
                }
            }
        }
        r
    }

    /// The integer code of this category.
    pub fn code(self) -> (r: i32)
        ensures
            r == category_code(self),
    {
        match self {
            GeneralCategory::ClosePunctuation => 18,
            GeneralCategory::ConnectorPunctuation => 16,
            GeneralCategory::Control => 0,
            GeneralCategory::CurrencySymbol => 23,
            GeneralCategory::DashPunctuation => 17,
            GeneralCategory::DecimalNumber => 13,
            GeneralCategory::EnclosingMark => 11,
            GeneralCategory::FinalPunctuation => 19,
            GeneralCategory::Format => 1,
            GeneralCategory::InitialPunctuation => 20,
            GeneralCategory::LetterNumber => 14,
            GeneralCategory::LineSeparator => 27,
            GeneralCategory::LowercaseLetter => 5,
            GeneralCategory::MathSymbol => 25,
            GeneralCategory::ModifierLetter => 6,
            GeneralCategory::ModifierSymbol => 24,
            GeneralCategory::NonspacingMark => 12,
            GeneralCategory::OpenPunctuation => 22,
            GeneralCategory::OtherLetter => 7,
            GeneralCategory::OtherNumber => 15,
            GeneralCategory::OtherPunctuation => 21,
            GeneralCategory::OtherSymbol => 26,
            GeneralCategory::ParagraphSeparator => 28,
            GeneralCategory::PrivateUse => 3,
            GeneralCategory::SpaceSeparator => 29,
            GeneralCategory::SpacingMark => 10,
            GeneralCategory::Surrogate => 4,
            GeneralCategory::TitlecaseLetter => 8,
            GeneralCategory::Unassigned => 2,
            GeneralCategory::UppercaseLetter => 9,
        }
    }
}

/// The general category of `c`.
pub fn general_category(c: char) -> (r: GeneralCategory)
    ensures
        abbreviation(r) == category_abbreviation_of(c),
        r == category_of(c),
{
    let a = general_category_abbreviation(c);
    match GeneralCategory::from_abbreviation(a) {
        Some(g) => {
            proof {
                lemma_abbreviation_injective(g, category_of(c));
            }
            g
        },
        None => {
            proof {
                let g = choose|g: GeneralCategory| abbreviation(g) == a@;
                assert(abbreviation(g) == a@);
            }
            GeneralCategory::Unassigned
        },
    }
}

} // verus!
