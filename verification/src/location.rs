//! Document coordinates.

use vstd::prelude::*;

verus! {

/// A position in the document: `x` is the column and `y` the row. Both count
/// from zero and are independent of what is visible on screen.
#[derive(Clone, Copy, Debug, PartialEq, Eq, Structural, Default)]
pub struct Location {
    pub x: usize,
    pub y: usize,
}

/// The difference of two coordinates, held at zero where `b` exceeds `a`.
pub open spec fn distance(a: usize, b: usize) -> usize {
    if a >= b {
        (a - b) as usize
    } else {
        0
    }
}

impl Location {
    /// The componentwise difference `self - other`, held at zero where
    /// `other` is ahead of `self`.
    pub open spec fn spec_subtract(self, other: Location) -> Location {
        Location { x: distance(self.x, other.x), y: distance(self.y, other.y) }
    }

    /// Whether `self` is at or before `other` in both coordinates.
    pub open spec fn le(self, other: Location) -> bool {
        self.x <= other.x && self.y <= other.y
    }

    /// Shifts `self` by `other` towards the origin, stopping at zero.
    pub fn subtract(&self, other: &Location) -> (r: Location)
        ensures
            r == self.spec_subtract(*other),
            other.le(*self) ==> r.x == self.x - other.x && r.y == self.y - other.y,
    {
        Location { x: self.x.saturating_sub(other.x), y: self.y.saturating_sub(other.y) }
    }
}

} // verus!
