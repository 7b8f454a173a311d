//! Fonts: a face instantiated at a specific size and scale.

use vstd::prelude::*;
use crate::face::Face;

verus! {

/// The mathematical state of a font.
pub ghost struct FontView {
    /// The horizontal scale.
    pub x_scale: i32,
    /// The vertical scale.
    pub y_scale: i32,
    /// The horizontal pixels per em; zero when unset.
    pub x_ppem: u32,
    /// The vertical pixels per em; zero when unset.
    pub y_ppem: u32,
    /// Whether the font has been frozen against mutation.
    pub immutable: bool,
}

/// A font represents a face at a specific size and with certain other
/// parameters specified. Fonts are created from faces and are the input
/// to shaping.
#[derive(Debug)]
pub struct Font {
    x_scale: i32,
    y_scale: i32,
    x_ppem: u32,
    y_ppem: u32,
    immutable: bool,
}

impl View for Font {
    type V = FontView;

    closed spec fn view(&self) -> FontView {
        FontView {
            x_scale: self.x_scale,
            y_scale: self.y_scale,
            x_ppem: self.x_ppem,
            y_ppem: self.y_ppem,
            immutable: self.immutable,
        }
    }
}

impl Font {
    /// Constructs a new font from the given face. The face is only
    /// borrowed for the duration of the call; the font keeps what it
    /// needs of it. The scale starts out at the face's units per em and
    /// the pixels per em start out unset.
    pub fn new(face: &Face) -> (r: Font)
        ensures
            r@.x_scale == face@.upem as i32,
            r@.y_scale == face@.upem as i32,
            r@.x_ppem == 0,
            r@.y_ppem == 0,
            !r@.immutable,
    {
        let scale = face.get_upem() as i32;
        Font { x_scale: scale, y_scale: scale, x_ppem: 0, y_ppem: 0, immutable: false }
    }

    /// Sets the horizontal and vertical pixels per em. Does nothing when
    /// the font is immutable.
    pub fn set_ppem(&mut self, x_ppem: u32, y_ppem: u32)
        ensures
            final(self)@ == if old(self)@.immutable {
                old(self)@
            } else {
                FontView { x_ppem, y_ppem, ..old(self)@ }
            },
    {
        if !self.immutable {
            self.x_ppem = x_ppem;
            self.y_ppem = y_ppem;
        }
    }

    /// The horizontal and vertical pixels per em.
    pub fn get_ppem(&self) -> (r: (u32, u32))
        ensures
            r.0 == self@.x_ppem,
            r.1 == self@.y_ppem,
    {
        (self.x_ppem, self.y_ppem)
    }

    /// Sets the horizontal and vertical scale. Does nothing when the font
    /// is immutable.
    pub fn set_scale(&mut self, x_scale: i32, y_scale: i32)
        ensures
            final(self)@ == if old(self)@.immutable {
                old(self)@
            } else {
                FontView { x_scale, y_scale, ..old(self)@ }
            },
    {
        if !self.immutable {
            self.x_scale = x_scale;
            self.y_scale = y_scale;
        }
    }

    /// The horizontal and vertical scale.
    pub fn get_scale(&self) -> (r: (i32, i32))
        ensures
            r.0 == self@.x_scale,
            r.1 == self@.y_scale,
    {
        (self.x_scale, self.y_scale)
    }

    /// Make this font immutable: a one-way transition, after which the
    /// setters leave the font unchanged.
    pub fn make_immutable(&mut self)
        ensures
            final(self)@ == (FontView { immutable: true, ..old(self)@ }),
    {
        self.immutable = true;
    }

    /// Whether the font is immutable.
    pub fn is_immutable(&self) -> (r: bool)
        ensures
            r == self@.immutable,
    {
        self.immutable
    }
}

} // verus!
