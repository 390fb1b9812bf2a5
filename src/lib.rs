//! Unicode codepoint properties and normalization primitives for a text
//! shaping pipeline.
//!
//! Raw per-codepoint data (general category, canonical combining class,
//! script, bidi mirroring, canonical composition and decomposition) comes from
//! the UCD crates; this library layers the shaping-specific rules on top of it
//! and states each of them as a contract.
pub mod category;
pub mod codepoint;
pub mod classify;
pub mod modified_combining_class;
pub mod combining;
pub mod api;
pub mod normalization;
pub mod properties;

pub use api::{
    hb_ucd_combining_class, hb_ucd_compose, hb_ucd_decompose, hb_ucd_general_category,
    hb_ucd_is_default_ignorable, hb_ucd_is_emoji_extended_pictographic,
    hb_ucd_is_variation_selector, hb_ucd_mirroring, hb_ucd_modified_combining_class,
    hb_ucd_script, hb_ucd_space_fallback_type,
};
pub use category::{general_category, GeneralCategory};
pub use classify::{
    is_default_ignorable, is_emoji_extended_pictographic, is_variation_selector, space_fallback,
    Space,
};
pub use codepoint::to_codepoint;
pub use combining::{combining_class, modified_combining_class};
pub use normalization::{compose, decompose, decompose_hangul, Decomposition};
pub use properties::{mirrored, script, CharExt};
