//! Decomposition of precomposed Vietnamese characters into a base letter
//! followed by a combining tone mark.
//!
//! The input is assumed to be in canonical composed normalization form
//! (this precondition is not checked). Only tone marks are detached;
//! circumflex, breve and horn stay on their base letter.

mod recompose;
mod tables;
mod transform;

pub use recompose::compose_char;
pub use recompose::lemma_compose_inverts;
pub use recompose::lemma_compose_needs_tone_mark;
pub use recompose::lemma_round_trip;
pub use recompose::recompose_pair;
pub use recompose::recompose_seq;
pub use tables::decomp;
pub use tables::decompose_char;
pub use tables::ext_decomp;
pub use tables::is_tone_mark;
pub use tables::lemma_decomposition_monotonic;
pub use tables::lemma_one_tone_mark;
pub use tables::middle_decomp;
pub use tables::win1258_decomp;
pub use transform::decompose_one;
pub use transform::decompose_seq;
pub use transform::lemma_pass_through_unchanged;
pub use transform::DecomposeVietnamese;
pub use transform::IterDecomposeVietnamese;
