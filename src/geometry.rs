//! Axis-aligned bounding boxes and the inclusive overlap test.
use vstd::prelude::*;

verus! {

/// A closed rectangle of pixel coordinates, `left..=right` by `top..=bottom`.
#[derive(Clone, Copy, Debug, PartialEq, Eq, Structural)]
pub struct Bounds {
    pub left: i32,
    pub right: i32,
    pub top: i32,
    pub bottom: i32,
}

/// The box of something centred at `(x, y)` with the given size; half the size
/// is rounded down on each side.
pub open spec fn bounds_of(x: int, y: int, width: int, height: int) -> Bounds {
    Bounds {
        left: (x - width / 2) as i32,
        right: (x + width / 2) as i32,
        top: (y - height / 2) as i32,
        bottom: (y + height / 2) as i32,
    }
}

/// Whether `bounds_of` is representable for these values.
pub open spec fn bounds_fit(x: int, y: int, width: int, height: int) -> bool {
    &&& 0 <= width
    &&& 0 <= height
    &&& i32::MIN <= x - width / 2
    &&& x + width / 2 <= i32::MAX
    &&& i32::MIN <= y - height / 2
    &&& y + height / 2 <= i32::MAX
}

impl Bounds {
    /// The two rectangles share at least one point: touching edges count.
    pub open spec fn meets(self, b: Bounds) -> bool {
        &&& self.left <= b.right
        &&& b.left <= self.right
        &&& self.top <= b.bottom
        &&& b.top <= self.bottom
    }

    /// Whether the pixel `(x, y)` lies in the rectangle.
    pub open spec fn covers(self, x: int, y: int) -> bool {
        self.left <= x <= self.right && self.top <= y <= self.bottom
    }

    /// The box of something centred at `(x, y)` with the given size.
    pub fn of(x: i32, y: i32, width: i32, height: i32) -> (b: Bounds)
        requires
            bounds_fit(x as int, y as int, width as int, height as int),
        ensures
            b == bounds_of(x as int, y as int, width as int, height as int),
    {
        Bounds {
            left: x - width / 2,
            right: x + width / 2,
            top: y - height / 2,
            bottom: y + height / 2,
        }
    }

    /// Inclusive overlap test: neither box lies wholly beside or wholly
    /// above the other.
    pub fn is_touching(&self, b: Bounds) -> (r: bool)
        ensures
            r == self.meets(b),
    {
        let bad_x = self.left > b.right || self.right < b.left;
        let bad_y = self.top > b.bottom || self.bottom < b.top;
        !bad_x && !bad_y
    }
}

/// Overlap does not depend on the order of the two boxes.
pub proof fn lemma_overlap_symmetric(a: Bounds, b: Bounds)
    ensures
        a.meets(b) == b.meets(a),
{
}

/// Two well-formed boxes whose edges touch on x (`a.right == b.left`) and
/// whose vertical extents intersect do overlap.
pub proof fn lemma_touching_edges_overlap(a: Bounds, b: Bounds)
    requires
        a.left <= a.right,
        b.left <= b.right,
        a.right == b.left,
        a.top <= b.bottom,
        b.top <= a.bottom,
    ensures
        a.meets(b),
{
}

} // verus!
