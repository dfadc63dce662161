//! Points, extents and the overlap test for axis-aligned boxes.

use vstd::prelude::*;

verus! {

/// The largest magnitude any coordinate, extent or velocity component may have.
/// Sums and differences of a few such values stay far inside `i64`.
pub const COORD_LIMIT: i64 = 1_099_511_627_776;

/// The magnitude of a mathematical integer.
pub open spec fn magnitude(v: int) -> int {
    if v < 0 {
        -v
    } else {
        v
    }
}

/// A pair of integers: a position, a size or a velocity.
#[derive(Clone, Copy, Debug, PartialEq, Eq, Structural)]
pub struct Vec2 {
    pub x: i64,
    pub y: i64,
}

impl Vec2 {
    /// Both components lie within `COORD_LIMIT` of zero.
    pub open spec fn bounded(self) -> bool {
        &&& -COORD_LIMIT <= self.x <= COORD_LIMIT
        &&& -COORD_LIMIT <= self.y <= COORD_LIMIT
    }

    /// Both components are at least 1 and at most `COORD_LIMIT`.
    pub open spec fn positive(self) -> bool {
        &&& 1 <= self.x <= COORD_LIMIT
        &&& 1 <= self.y <= COORD_LIMIT
    }

    pub fn new(x: i64, y: i64) -> (v: Vec2)
        ensures
            v.x == x,
            v.y == y,
    {
        Vec2 { x, y }
    }

    /// The origin, which is the centre of the playing field.
    pub fn zero() -> (v: Vec2)
        ensures
            v.x == 0,
            v.y == 0,
    {
        Vec2 { x: 0, y: 0 }
    }
}

/// The distance between two coordinates.
pub fn distance(a: i64, b: i64) -> (d: i64)
    requires
        -COORD_LIMIT <= a <= COORD_LIMIT,
        -COORD_LIMIT <= b <= COORD_LIMIT,
    ensures
        d == magnitude(a - b),
{
    if a < b {
        b - a
    } else {
        a - b
    }
}

/// How far two boxes reach into each other along one axis, counted in half
/// units: the sum of the two extents less twice the distance of the centres.
/// The boxes overlap along the axis exactly when this is positive.
pub open spec fn penetration(center_a: int, extent_a: int, center_b: int, extent_b: int) -> int {
    extent_a + extent_b - 2 * magnitude(center_a - center_b)
}

/// Two boxes, each given by its centre and full size, overlap: along both axes
/// the centres are closer than the sum of the half extents.
pub open spec fn boxes_overlap(pos_a: Vec2, size_a: Vec2, pos_b: Vec2, size_b: Vec2) -> bool {
    &&& penetration(pos_a.x as int, size_a.x as int, pos_b.x as int, size_b.x as int) > 0
    &&& penetration(pos_a.y as int, size_a.y as int, pos_b.y as int, size_b.y as int) > 0
}

/// Computes `penetration` along one axis.
pub fn axis_penetration(center_a: i64, extent_a: i64, center_b: i64, extent_b: i64) -> (p: i64)
    requires
        -COORD_LIMIT <= center_a <= COORD_LIMIT,
        -COORD_LIMIT <= center_b <= COORD_LIMIT,
        1 <= extent_a <= COORD_LIMIT,
        1 <= extent_b <= COORD_LIMIT,
    ensures
        p == penetration(center_a as int, extent_a as int, center_b as int, extent_b as int),
{
    let d: i64 = distance(center_a, center_b);
    extent_a + extent_b - 2 * d
}

/// Decides whether two boxes overlap.
pub fn overlaps(pos_a: Vec2, size_a: Vec2, pos_b: Vec2, size_b: Vec2) -> (hit: bool)
    requires
        pos_a.bounded(),
        pos_b.bounded(),
        size_a.positive(),
        size_b.positive(),
    ensures
        hit == boxes_overlap(pos_a, size_a, pos_b, size_b),
{
    axis_penetration(pos_a.x, size_a.x, pos_b.x, size_b.x) > 0 && axis_penetration(
        pos_a.y,
        size_a.y,
        pos_b.y,
        size_b.y,
    ) > 0
}

} // verus!
