use vstd::prelude::*;

use crate::geometry::{Point, SPEED};

verus! {

/// A velocity, in distance units per second along each axis.
#[derive(Clone, Copy, Debug, PartialEq, Eq, Structural)]
pub struct Velocity {
    pub x: i64,
    pub y: i64,
}

/// A square body of side `SIDE`, given by its center and its velocity.
#[derive(Clone, Copy, Debug, PartialEq, Eq, Structural)]
pub struct Body {
    pub center: Point,
    pub velocity: Velocity,
}

/// A velocity component that a body may have: full speed one way or the other.
pub open spec fn is_speed(v: i64) -> bool {
    v == SPEED || v == -SPEED
}

/// Both components of the velocity are full speed, in some direction.
pub open spec fn valid_velocity(v: Velocity) -> bool {
    is_speed(v.x) && is_speed(v.y)
}

impl Velocity {
    pub fn new(x: i64, y: i64) -> (v: Velocity)
        ensures
            v.x == x,
            v.y == y,
    {
        Velocity { x, y }
    }
}

impl Body {
    pub fn new(center: Point, velocity: Velocity) -> (b: Body)
        ensures
            b.center == center,
            b.velocity == velocity,
    {
        Body { center, velocity }
    }

    /// The point a renderer draws the body at.
    pub fn center(&self) -> (c: Point)
        ensures
            c == self.center,
    {
        self.center
    }
}

} // verus!
