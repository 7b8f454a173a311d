//! The shaping pipeline: turning a buffer of code points into a buffer of
//! positioned glyphs.
//!
//! Shaping consumes its input [`Buffer`] and yields a [`ShapedBuffer`], a
//! distinct type that only exposes glyph-result accessors, so that a
//! shaping result can never be mistaken for shapeable input. The one way
//! back is [`ShapedBuffer::clear_contents`], which discards the glyph data
//! and returns an empty buffer with the same segment properties.
//!
//! This layer governs the lifecycle and the state transition; it does not
//! perform glyph substitution or positioning, which belong to a shaping
//! engine. Each input code point is carried through as one glyph entry in
//! visual order — reversed for a backward direction — with its cluster
//! value kept and zero advances and offsets.

use vstd::prelude::*;
use crate::buffer::{same_props, Buffer, BufferClusterLevel, BufferItem, BufferView};
use crate::direction::Direction;
use crate::feature::Feature;
use crate::font::Font;
use crate::language::Language;

verus! {

/// Glyph information for one glyph of a shaping result.
#[derive(Debug, Clone, Copy, PartialEq, Eq, Structural)]
pub struct GlyphInfo {
    /// The glyph entry, carrying the code point it stands for.
    pub codepoint: u32,
    /// The index of the code point in the text it was added from.
    pub cluster: u32,
}

impl GlyphInfo {
    /// The glyph entry, carrying the code point it stands for.
    pub fn index(&self) -> (r: u32)
        ensures
            r == self.codepoint,
    {
        self.codepoint
    }

    /// The cluster value of the glyph.
    pub fn cluster(&self) -> (r: u32)
        ensures
            r == self.cluster,
    {
        self.cluster
    }
}

/// Glyph placement for one glyph of a shaping result.
#[derive(Debug, Clone, Copy, PartialEq, Eq, Structural)]
pub struct GlyphPosition {
    /// How much the line advances horizontally after this glyph.
    pub x_advance: i32,
    /// How much the line advances vertically after this glyph.
    pub y_advance: i32,
    /// The horizontal offset of the glyph from its nominal position.
    pub x_offset: i32,
    /// The vertical offset of the glyph from its nominal position.
    pub y_offset: i32,
}

impl GlyphPosition {
    /// How much the line advances horizontally after this glyph.
    pub fn x_advance(&self) -> (r: i32)
        ensures
            r == self.x_advance,
    {
        self.x_advance
    }

    /// How much the line advances vertically after this glyph.
    pub fn y_advance(&self) -> (r: i32)
        ensures
            r == self.y_advance,
    {
        self.y_advance
    }

    /// The horizontal offset of the glyph.
    pub fn x_offset(&self) -> (r: i32)
        ensures
            r == self.x_offset,
    {
        self.x_offset
    }

    /// The vertical offset of the glyph.
    pub fn y_offset(&self) -> (r: i32)
        ensures
            r == self.y_offset,
    {
        self.y_offset
    }
}

/// The mathematical state of a shaping result.
pub ghost struct ShapedView {
    /// The glyph entries, in visual order.
    pub infos: Seq<GlyphInfo>,
    /// The glyph placements, aligned one to one with the entries.
    pub positions: Seq<GlyphPosition>,
    /// The text flow direction.
    pub direction: Direction,
    /// The script tag.
    pub script: u32,
    /// The language tag bytes.
    pub language: Seq<u8>,
    /// The flag bits.
    pub flags: u32,
    /// The cluster-grouping level.
    pub cluster_level: BufferClusterLevel,
}

/// The glyph entries of the buffer items, in the items' order.
pub open spec fn glyphs_of(items: Seq<BufferItem>) -> Seq<GlyphInfo> {
    Seq::new(
        items.len(),
        |i: int| GlyphInfo { codepoint: items[i].codepoint, cluster: items[i].cluster },
    )
}

/// A glyph placement with zero advances and offsets.
pub open spec fn zero_position() -> GlyphPosition {
    GlyphPosition { x_advance: 0, y_advance: 0, x_offset: 0, y_offset: 0 }
}

/// The shaping result of a buffer: one glyph entry per code point, in
/// visual order — reversed when the direction is backward — with unmoved,
/// zero-advance placements, and the buffer's properties carried over.
pub open spec fn spec_shape(b: BufferView) -> ShapedView {
    let forward = glyphs_of(b.contents);
    let infos = if b.direction == Direction::RTL || b.direction == Direction::BTT {
        forward.reverse()
    } else {
        forward
    };
    ShapedView {
        infos,
        positions: Seq::new(infos.len(), |i: int| zero_position()),
        direction: b.direction,
        script: b.script,
        language: b.language,
        flags: b.flags,
        cluster_level: b.cluster_level,
    }
}

/// The buffer a shaping result turns back into when its contents are
/// cleared: empty, with the properties kept.
pub open spec fn spec_cleared(s: ShapedView) -> BufferView {
    BufferView {
        contents: Seq::empty(),
        direction: s.direction,
        script: s.script,
        language: s.language,
        flags: s.flags,
        cluster_level: s.cluster_level,
    }
}

/// A series of positioned glyphs: the result of shaping a buffer.
///
/// Only glyph results can be read from it; input mutation is not offered.
/// [`ShapedBuffer::clear_contents`] is the only way back to a shapeable
/// [`Buffer`].
#[derive(Debug)]
pub struct ShapedBuffer {
    infos: Vec<GlyphInfo>,
    positions: Vec<GlyphPosition>,
    direction: Direction,
    script: u32,
    language: Language,
    flags: u32,
    cluster_level: BufferClusterLevel,
}

impl View for ShapedBuffer {
    type V = ShapedView;

    closed spec fn view(&self) -> ShapedView {
        ShapedView {
            infos: self.infos@,
            positions: self.positions@,
            direction: self.direction,
            script: self.script,
            language: self.language@,
            flags: self.flags,
            cluster_level: self.cluster_level,
        }
    }
}

/// Shapes the buffer, consuming it and returning the result in its place.
///
/// The feature list controls feature application during glyph selection;
/// if two features have the same tag but overlapping ranges, the feature
/// with the higher index takes precedence (see
/// [`active_feature_value`](crate::feature::active_feature_value)). An
/// empty feature list is legal and means the font defaults apply. Since
/// this layer does not select glyphs, neither the font nor the features
/// change the structural result stated in the contract.
pub fn hb_shape(font: &Font, buffer: Buffer, features: &[Feature]) -> (r: ShapedBuffer)
    ensures
        r@ == spec_shape(buffer@),
        r@.infos.len() == buffer@.contents.len(),
        r@.positions.len() == buffer@.contents.len(),
{
    let n = buffer.len();
    let backward = buffer.get_direction().is_backward();
    let ghost target = spec_shape(buffer@).infos;
    let mut infos: Vec<GlyphInfo> = Vec::new();
    let mut positions: Vec<GlyphPosition> = Vec::new();
    let mut k: usize = 0;
    while k < n
        invariant
            k <= n,
            n == buffer@.contents.len(),
            backward == (buffer@.direction == Direction::RTL || buffer@.direction
                == Direction::BTT),
            target == spec_shape(buffer@).infos,
            target.len() == n,
            infos@ == target.take(k as int),
            positions@ == Seq::new(k as nat, |i: int| zero_position()),
        decreases n - k,
    {
        let item = if backward {
            buffer.item(n - 1 - k)
        } else {
            buffer.item(k)
        };
        infos.push(GlyphInfo { codepoint: item.codepoint, cluster: item.cluster });
        positions.push(GlyphPosition { x_advance: 0, y_advance: 0, x_offset: 0, y_offset: 0 });
        k += 1;
        proof {
            assert(infos@ =~= target.take(k as int));
            assert(positions@ =~= Seq::new(k as nat, |i: int| zero_position()));
        }
    }
    proof {
        assert(infos@ =~= target);
        assert(positions@ =~= Seq::new(target.len(), |i: int| zero_position()));
    }
    ShapedBuffer {
        infos,
        positions,
        direction: buffer.get_direction(),
        script: buffer.get_script(),
        language: buffer.get_language().clone(),
        flags: buffer.get_flags().bits,
        cluster_level: buffer.get_cluster_level(),
    }
}

impl ShapedBuffer {
    /// Throw away the glyph data, returning an empty buffer that keeps
    /// the segment properties, flags and cluster level and can hold input
    /// text again.
    pub fn clear_contents(self) -> (r: Buffer)
        ensures
            r@ == spec_cleared(self@),
    {
        Buffer::with_props(
            self.direction,
            self.script,
            self.language,
            self.flags,
            self.cluster_level,
        )
    }

    /// The glyph entries of the shaping result, in visual order.
    pub fn get_glyph_infos(&self) -> (r: &[GlyphInfo])
        ensures
            r@ == self@.infos,
    {
        self.infos.as_slice()
    }

    /// The glyph placements of the shaping result, aligned one to one
    /// with the glyph entries.
    pub fn get_glyph_positions(&self) -> (r: &[GlyphPosition])
        ensures
            r@ == self@.positions,
    {
        self.positions.as_slice()
    }
}

/// Shaping and then clearing the result yields a buffer of length zero
/// with the direction, script, language, flags and cluster level the
/// input buffer had before shaping.
pub proof fn lemma_shape_clear_round_trip(b: BufferView)
    ensures
        spec_cleared(spec_shape(b)).contents.len() == 0,
        same_props(spec_cleared(spec_shape(b)), b),
{
}

/// A shaping result aligns its glyph entries and placements: the two
/// sequences always have the same length, one entry per input code point.
pub proof fn lemma_shape_aligned(b: BufferView)
    ensures
        spec_shape(b).infos.len() == b.contents.len(),
        spec_shape(b).positions.len() == b.contents.len(),
{
}

} // verus!
