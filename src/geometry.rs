//! Points and axis-aligned bounding boxes on the integer plane.

use vstd::prelude::*;

verus! {

/// A point of the plane in mathematical integers.
pub struct Point {
    pub x: int,
    pub y: int,
}

/// A point or displacement in fixed-point units.
#[derive(Clone, Copy, Debug, PartialEq, Eq, Structural)]
pub struct Vec2 {
    pub x: i64,
    pub y: i64,
}

impl View for Vec2 {
    type V = Point;

    open spec fn view(&self) -> Point {
        Point { x: self.x as int, y: self.y as int }
    }
}

impl Vec2 {
    pub fn new(x: i64, y: i64) -> (r: Vec2)
        ensures
            r.x == x,
            r.y == y,
    {
        Vec2 { x, y }
    }
}

/// An axis-aligned box: the corner with the least coordinates and the one with
/// the greatest.
#[derive(Clone, Copy, Debug, PartialEq, Eq, Structural)]
pub struct Aabb {
    pub mins: Vec2,
    pub maxs: Vec2,
}

/// Two closed boxes meet when they overlap or touch on both axes.
pub open spec fn boxes_meet(a: Aabb, b: Aabb) -> bool {
    a.mins.x <= b.maxs.x && a.mins.y <= b.maxs.y && a.maxs.x >= b.mins.x && a.maxs.y
        >= b.mins.y
}

impl Aabb {
    /// The box centred on `center` that reaches `hx` and `hy` from it along
    /// each axis.
    pub fn from_half_extents(center: Vec2, hx: i64, hy: i64) -> (r: Aabb)
        requires
            0 <= hx,
            0 <= hy,
            i64::MIN <= center.x - hx,
            center.x + hx <= i64::MAX,
            i64::MIN <= center.y - hy,
            center.y + hy <= i64::MAX,
        ensures
            r.mins.x == center.x - hx,
            r.mins.y == center.y - hy,
            r.maxs.x == center.x + hx,
            r.maxs.y == center.y + hy,
    {
        Aabb {
            mins: Vec2 { x: center.x - hx, y: center.y - hy },
            maxs: Vec2 { x: center.x + hx, y: center.y + hy },
        }
    }

    /// The box whose corner with the least coordinates is `corner` and which
    /// is `width` wide and `height` high.
    pub fn from_corner(corner: Vec2, width: i64, height: i64) -> (r: Aabb)
        requires
            0 <= width,
            0 <= height,
            corner.x + width <= i64::MAX,
            corner.y + height <= i64::MAX,
        ensures
            r.mins == corner,
            r.maxs.x == corner.x + width,
            r.maxs.y == corner.y + height,
    {
        Aabb { mins: corner, maxs: Vec2 { x: corner.x + width, y: corner.y + height } }
    }

    /// Whether the two closed boxes overlap or touch.
    pub fn intersects(&self, other: &Aabb) -> (r: bool)
        ensures
            r == boxes_meet(*self, *other),
    {
        self.mins.x <= other.maxs.x && self.mins.y <= other.maxs.y && self.maxs.x >= other.mins.x
            && self.maxs.y >= other.mins.y
    }
}

} // verus!
