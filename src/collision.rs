//! Axis-aligned boxes and their overlap test.
use vstd::prelude::*;
use crate::motion::{Point, Transform};

verus! {

/// Whether two closed intervals, given by centres `c1`, `c2` and full
/// lengths `s1`, `s2`, share a point. Every bound is doubled so that half
/// lengths stay whole: the first interval is `[c1 - s1/2, c1 + s1/2]`.
pub open spec fn spans_meet(c1: int, s1: int, c2: int, s2: int) -> bool {
    2 * c1 - s1 <= 2 * c2 + s2 && 2 * c1 + s1 >= 2 * c2 - s2
}

/// Whether the boxes of two transforms overlap, edges included.
pub open spec fn boxes_touch(a: Transform, b: Transform) -> bool {
    &&& spans_meet(a.translation.x as int, a.scale.x as int, b.translation.x as int, b.scale.x as int)
    &&& spans_meet(a.translation.y as int, a.scale.y as int, b.translation.y as int, b.scale.y as int)
}

/// An axis-aligned box. Each bound is kept doubled (twice its coordinate),
/// so the bounds of a box of odd size are exact.
#[derive(Clone, Copy, Debug, PartialEq, Eq, Structural)]
pub struct Aabb2d {
    pub min_x2: i128,
    pub min_y2: i128,
    pub max_x2: i128,
    pub max_y2: i128,
}

impl Aabb2d {
    /// The box with the given centre and full size.
    pub open spec fn spec_new(center: Point, size: Point) -> Aabb2d {
        Aabb2d {
            min_x2: (2 * center.x - size.x) as i128,
            min_y2: (2 * center.y - size.y) as i128,
            max_x2: (2 * center.x + size.x) as i128,
            max_y2: (2 * center.y + size.y) as i128,
        }
    }

    /// The box with the given centre and full size.
    pub fn new(center: Point, size: Point) -> (r: Aabb2d)
        ensures
            r == Self::spec_new(center, size),
    {
        let cx = center.x as i128;
        let cy = center.y as i128;
        Aabb2d {
            min_x2: 2 * cx - size.x as i128,
            min_y2: 2 * cy - size.y as i128,
            max_x2: 2 * cx + size.x as i128,
            max_y2: 2 * cy + size.y as i128,
        }
    }

    /// The box that a transform covers.
    pub fn from_transform(t: &Transform) -> (r: Aabb2d)
        ensures
            r == Self::spec_new(t.translation, t.scale),
    {
        Self::new(t.translation, t.scale)
    }

    /// Whether two boxes share a point, edges included.
    pub open spec fn spec_intersects(self, other: Aabb2d) -> bool {
        &&& self.min_x2 <= other.max_x2 && self.max_x2 >= other.min_x2
        &&& self.min_y2 <= other.max_y2 && self.max_y2 >= other.min_y2
    }

    /// Whether two boxes share a point, edges included.
    pub fn intersects(&self, other: &Aabb2d) -> (r: bool)
        ensures
            r == self.spec_intersects(*other),
    {
        let x_overlaps = self.min_x2 <= other.max_x2 && self.max_x2 >= other.min_x2;
        let y_overlaps = self.min_y2 <= other.max_y2 && self.max_y2 >= other.min_y2;
        x_overlaps && y_overlaps
    }
}

/// Whether the boxes of two transforms overlap, edges included.
pub fn transforms_touch(a: &Transform, b: &Transform) -> (r: bool)
    ensures
        r == boxes_touch(*a, *b),
{
    let ba = Aabb2d::from_transform(a);
    let bb = Aabb2d::from_transform(b);
    ba.intersects(&bb)
}

} // verus!
