//! Converts text to an uwuified version: case folding, expression replacement, letter
//! substitution, stutter, and decorations after punctuation, each stage stated as a spec
//! function and proved against it.

mod builder;
mod dict;
mod error;
mod laws;
mod matcher;
mod rng;
mod stages;
mod uwu;

pub use builder::UwuBuilder;
pub use error::UwuError;
pub use laws::{
    lemma_decoration_after_punctuation, lemma_decoration_every_marker, lemma_disabled_is_identity,
    lemma_no_marker_no_change, lemma_stutter_at_word_starts, lemma_transform_deterministic,
    lemma_w_replace_idempotent,
};
pub use rng::Generator;
pub use stages::{decorate_at, lowercase_bytes, replace_matches, stutter_with, w_replace_bytes};
pub use uwu::{uwuify, Uwu};
