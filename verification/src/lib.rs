//! A safe, verified model of a text-shaping buffer pipeline.
//!
//! The crate provides the resource and state-transition layer that sits
//! between client code and a text-shaping engine: byte blobs wrapped into
//! font faces and fonts, a text buffer that accumulates code points and
//! segment properties, and a shaping step that consumes a [`Buffer`] and
//! yields a [`ShapedBuffer`] from which only glyph results can be read.

use vstd::prelude::*;

pub mod direction;
pub use crate::direction::Direction;

pub mod language;
pub use crate::language::{default_language, Language};

pub mod script;
pub use crate::script::{
    script_of, script_horizontal_direction, SCRIPT_ARABIC, SCRIPT_COMMON, SCRIPT_CYRILLIC,
    SCRIPT_DEVANAGARI, SCRIPT_GREEK, SCRIPT_HAN, SCRIPT_HANGUL, SCRIPT_HEBREW, SCRIPT_HIRAGANA,
    SCRIPT_INHERITED, SCRIPT_INVALID, SCRIPT_KATAKANA, SCRIPT_LATIN, SCRIPT_SYRIAC, SCRIPT_THAANA,
    SCRIPT_UNKNOWN,
};

pub mod tag;
pub use crate::tag::{lemma_tag_string_round_trip, Tag};

pub mod feature;
pub use crate::feature::{
    active_feature_value, lemma_active_feature_later_wins, Feature, FEATURE_RANGE_END,
};

pub mod blob;
pub use crate::blob::Blob;

pub mod sfnt;
pub use crate::sfnt::{face_count, glyph_count, units_per_em};

pub mod face;
pub use crate::face::{Face, FaceView};

pub mod font;
pub use crate::font::{Font, FontView};

pub mod buffer;
pub use crate::buffer::{
    lemma_append_full_range_len, lemma_guess_idempotent, Buffer, BufferClusterLevel, BufferFlags,
    BufferItem, BufferView, BUFFER_FLAG_BOT, BUFFER_FLAG_DO_NOT_INSERT_DOTTED_CIRCLE,
    BUFFER_FLAG_EOT, BUFFER_FLAG_PRESERVE_DEFAULT_IGNORABLES,
    BUFFER_FLAG_PRODUCE_SAFE_TO_INSERT_TATWEEL, BUFFER_FLAG_PRODUCE_UNSAFE_TO_CONCAT,
    BUFFER_FLAG_REMOVE_DEFAULT_IGNORABLES, BUFFER_FLAG_VERIFY,
};

pub mod shape;
pub use crate::shape::{
    hb_shape, lemma_shape_aligned, lemma_shape_clear_round_trip, GlyphInfo, GlyphPosition,
    ShapedBuffer, ShapedView,
};

verus! {

/// The possible errors for functions that return a `Result`.
#[derive(Debug, Clone, Copy, PartialEq, Eq, Structural)]
pub enum ErrorKind {
    /// An operation failed without reporting more information.
    HbFailure,
}

} // verus!
