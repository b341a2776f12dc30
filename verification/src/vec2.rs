//! A two-dimensional vector of 128-bit signed components, used for
//! positions, velocities, forces and accelerations alike.

use vstd::prelude::*;

verus! {

#[derive(Clone, Copy, Debug, PartialEq, Eq, Structural)]
pub struct Vec2 {
    pub x: i128,
    pub y: i128,
}

impl Vec2 {
    pub fn new(x: i128, y: i128) -> (r: Vec2)
        ensures
            r.x == x,
            r.y == y,
    {
        Vec2 { x, y }
    }

    pub fn zero() -> (r: Vec2)
        ensures
            r.x == 0,
            r.y == 0,
    {
        Vec2 { x: 0, y: 0 }
    }

    /// Component-wise sum.
    pub fn add(&self, other: &Vec2) -> (r: Vec2)
        requires
            i128::MIN <= self.x + other.x <= i128::MAX,
            i128::MIN <= self.y + other.y <= i128::MAX,
        ensures
            r.x == self.x + other.x,
            r.y == self.y + other.y,
    {
        Vec2 { x: self.x + other.x, y: self.y + other.y }
    }

    /// Component-wise negation.
    pub fn neg(&self) -> (r: Vec2)
        requires
            self.x > i128::MIN,
            self.y > i128::MIN,
        ensures
            r.x == -self.x,
            r.y == -self.y,
    {
        Vec2 { x: -self.x, y: -self.y }
    }
}

} // verus!
