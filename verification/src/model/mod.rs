//! Geometric and sprite-sheet data models.

pub mod spritesheet;

use vstd::prelude::*;

verus! {

/// An axis-aligned rectangle in world coordinates (y grows upward).
pub struct Rect {
    top_left: (i64, i64),
    bottom_right: (i64, i64),
}

impl Rect {
    /// The left edge.
    pub closed spec fn left(self) -> int {
        self.top_left.0 as int
    }

    /// The top edge.
    pub closed spec fn top(self) -> int {
        self.top_left.1 as int
    }

    /// The right edge.
    pub closed spec fn right(self) -> int {
        self.bottom_right.0 as int
    }

    /// The bottom edge.
    pub closed spec fn bottom(self) -> int {
        self.bottom_right.1 as int
    }

    /// Strict interior overlap on both axes: rectangles that merely share
    /// an edge do not overlap.
    pub open spec fn spec_overlaps(self, other: Rect) -> bool {
        &&& self.right() > other.left()
        &&& self.left() < other.right()
        &&& self.top() > other.bottom()
        &&& self.bottom() < other.top()
    }

    pub fn new(top_left: (i64, i64), bottom_right: (i64, i64)) -> (r: Rect)
        ensures
            r.left() == top_left.0,
            r.top() == top_left.1,
            r.right() == bottom_right.0,
            r.bottom() == bottom_right.1,
    {
        Rect { top_left, bottom_right }
    }

    /// Whether the two rectangles overlap on a region of positive area.
    pub fn intersects(&self, other: &Rect) -> (r: bool)
        ensures
            r == self.spec_overlaps(*other),
    {
        let (a_left, a_top) = self.top_left;
        let (a_right, a_bottom) = self.bottom_right;

        let (b_left, b_top) = other.top_left;
        let (b_right, b_bottom) = other.bottom_right;

        let x_overlapping = a_right > b_left && a_left < b_right;
        let y_overlapping = a_top > b_bottom && a_bottom < b_top;

        x_overlapping && y_overlapping
    }
}

/// Overlap is symmetric: the pair is unordered even though detection walks
/// ordered pairs.
pub proof fn lemma_overlap_symmetric(a: Rect, b: Rect)
    ensures
        a.spec_overlaps(b) == b.spec_overlaps(a),
{
}

} // verus!
