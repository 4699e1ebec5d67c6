//! Plain pixel geometry shared by the window plan and the surface configuration.

use vstd::prelude::*;

verus! {

/// A width and a height in physical pixels.
#[derive(Clone, Copy, Debug, PartialEq, Eq, Structural)]
pub struct Size {
    pub width: u32,
    pub height: u32,
}

impl Size {
    /// Both dimensions are at least one pixel, which is what a surface can be
    /// configured to.
    pub open spec fn non_empty(self) -> bool {
        self.width > 0 && self.height > 0
    }

    /// Decides `non_empty` at run time.
    pub fn is_non_empty(&self) -> (b: bool)
        ensures
            b == self.non_empty(),
    {
        self.width > 0 && self.height > 0
    }
}

/// A position on the display in physical pixels, measured from its top-left corner.
#[derive(Clone, Copy, Debug, PartialEq, Eq, Structural)]
pub struct Position {
    pub x: i32,
    pub y: i32,
}

/// A half-open range of indices, `start` up to but not counting `end`.
#[derive(Clone, Copy, Debug, PartialEq, Eq, Structural)]
pub struct Span {
    pub start: u32,
    pub end: u32,
}

impl Span {
    /// How many indices the span covers.
    pub open spec fn count(self) -> nat {
        if self.end >= self.start {
            (self.end - self.start) as nat
        } else {
            0
        }
    }

    /// The span of the first `n` indices.
    pub open spec fn first(n: u32) -> Span {
        Span { start: 0, end: n }
    }
}

} // verus!
