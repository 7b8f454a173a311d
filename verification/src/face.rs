//! Font faces extracted from blobs of font-file data.

use vstd::prelude::*;
use crate::blob::Blob;
use crate::sfnt::{glyph_count, spec_glyph_count, spec_upem, units_per_em};

verus! {

/// The mathematical state of a face.
pub ghost struct FaceView {
    /// The font-file bytes the face was built from.
    pub data: Seq<u8>,
    /// The face index inside the font file.
    pub index: u32,
    /// The units per em.
    pub upem: u32,
    /// The number of glyphs of the face.
    pub glyph_count: u32,
    /// Whether the face has been frozen against mutation.
    pub immutable: bool,
}

/// One font face extracted from a blob at a given face index.
///
/// An index that names no face of the blob yields a usable but empty face
/// — its glyph count is zero — rather than an error; callers may rely on
/// that.
#[derive(Debug)]
pub struct Face {
    data: Vec<u8>,
    index: u32,
    upem: u32,
    glyph_count: u32,
    immutable: bool,
}

impl View for Face {
    type V = FaceView;

    closed spec fn view(&self) -> FaceView {
        FaceView {
            data: self.data@,
            index: self.index,
            upem: self.upem,
            glyph_count: self.glyph_count,
            immutable: self.immutable,
        }
    }
}

impl Face {
    /// Create a new font face from the given blob and face index into the
    /// blob. The blob is consumed.
    ///
    /// The face index is used for font files that can contain more than
    /// one face. The glyph count and units per em are read out of the
    /// blob's bytes; a missing face or table yields the documented
    /// fallbacks, never an error.
    pub fn new(blob: Blob, index: u32) -> (r: Face)
        ensures
            r@.data == blob@,
            r@.index == index,
            r@.upem == spec_upem(blob@, index),
            r@.glyph_count == spec_glyph_count(blob@, index),
            !r@.immutable,
    {
        let data = blob.into_bytes();
        let gc = glyph_count(&data, index);
        let upem = units_per_em(&data, index);
        Face { data, index, upem, glyph_count: gc, immutable: false }
    }

    /// Assigns the given face index. Does nothing when the face is
    /// immutable; the stored glyph count and units per em still describe
    /// the face the wrapper was built from.
    pub fn set_index(&mut self, index: u32)
        ensures
            final(self)@ == if old(self)@.immutable {
                old(self)@
            } else {
                FaceView { index, ..old(self)@ }
            },
    {
        if !self.immutable {
            self.index = index;
        }
    }

    /// The face index.
    pub fn get_index(&self) -> (r: u32)
        ensures
            r == self@.index,
    {
        self.index
    }

    /// The units-per-em (UPEM) value of the face.
    pub fn get_upem(&self) -> (r: u32)
        ensures
            r == self@.upem,
    {
        self.upem
    }

    /// Sets the units per em. Does nothing when the face is immutable.
    pub fn set_upem(&mut self, upem: u32)
        ensures
            final(self)@ == if old(self)@.immutable {
                old(self)@
            } else {
                FaceView { upem, ..old(self)@ }
            },
    {
        if !self.immutable {
            self.upem = upem;
        }
    }

    /// The number of glyphs of the face.
    pub fn get_glyph_count(&self) -> (r: u32)
        ensures
            r == self@.glyph_count,
    {
        self.glyph_count
    }

    /// Make this face immutable: a one-way transition, after which the
    /// setters leave the face unchanged.
    pub fn make_immutable(&mut self)
        ensures
            final(self)@ == (FaceView { immutable: true, ..old(self)@ }),
    {
        self.immutable = true;
    }

    /// Whether the face is immutable.
    pub fn is_immutable(&self) -> (r: bool)
        ensures
            r == self@.immutable,
    {
        self.immutable
    }
}

} // verus!
