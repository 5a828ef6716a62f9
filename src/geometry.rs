use vstd::prelude::*;

verus! {

/// Millionths of a distance unit in one distance unit.
pub const UNIT: i64 = 1_000_000;

/// Side length of every body, in millionths of a distance unit.
pub const SIDE: i64 = 10_000_000;

/// Speed of a body along each axis, in distance units per second.
pub const SPEED: i64 = 50;

/// A point of the plane, in millionths of a distance unit.
#[derive(Clone, Copy, Debug, PartialEq, Eq, Structural)]
pub struct Point {
    pub x: i64,
    pub y: i64,
}

/// The extent of the area that bodies bounce inside: `[0, width] x [0, height]`,
/// in millionths of a distance unit.
#[derive(Clone, Copy, Debug, PartialEq, Eq, Structural)]
pub struct Bounds {
    pub width: i64,
    pub height: i64,
}

/// Absolute value.
pub open spec fn abs(n: int) -> int {
    if n < 0 { -n } else { n }
}

impl Point {
    pub fn new(x: i64, y: i64) -> (p: Point)
        ensures
            p.x == x,
            p.y == y,
    {
        Point { x, y }
    }
}

impl Bounds {
    pub fn new(width: i64, height: i64) -> (b: Bounds)
        ensures
            b.width == width,
            b.height == height,
    {
        Bounds { width, height }
    }
}

} // verus!
