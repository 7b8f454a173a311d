//! Text flow directions.

use vstd::prelude::*;

verus! {

/// The direction in which output glyphs flow.
#[derive(Debug, Clone, Copy, PartialEq, Eq, Structural)]
pub enum Direction {
    /// The direction is not set.
    Invalid,
    /// Text is set horizontally from left to right.
    LTR,
    /// Text is set horizontally from right to left.
    RTL,
    /// Text is set vertically from top to bottom.
    TTB,
    /// Text is set vertically from bottom to top.
    BTT,
}

impl Direction {
    /// Whether the direction is horizontal.
    pub fn is_horizontal(&self) -> (r: bool)
        ensures
            r == (*self == Direction::LTR || *self == Direction::RTL),
    {
        matches!(*self, Direction::LTR | Direction::RTL)
    }

    /// Whether the direction is vertical.
    pub fn is_vertical(&self) -> (r: bool)
        ensures
            r == (*self == Direction::TTB || *self == Direction::BTT),
    {
        matches!(*self, Direction::TTB | Direction::BTT)
    }

    /// Whether glyphs flow in the same order as the input text.
    pub fn is_forward(&self) -> (r: bool)
        ensures
            r == (*self == Direction::LTR || *self == Direction::TTB),
    {
        matches!(*self, Direction::LTR | Direction::TTB)
    }

    /// Whether glyphs flow in the reverse order of the input text.
    pub fn is_backward(&self) -> (r: bool)
        ensures
            r == (*self == Direction::RTL || *self == Direction::BTT),
    {
        matches!(*self, Direction::RTL | Direction::BTT)
    }
}

} // verus!
