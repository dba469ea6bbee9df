//! Points and axis-aligned rectangles.
use vstd::prelude::*;
use crate::units::{add_sat, sub_sat, distance, clamp_i64, travel};

verus! {

/// A point or a displacement in the plane.
#[derive(Clone, Copy, PartialEq, Eq, Structural, Debug)]
pub struct Vec2 {
    pub x: i64,
    pub y: i64,
}

/// An axis-aligned rectangle given by its top-left corner and its size.
#[derive(Clone, Copy, PartialEq, Eq, Structural, Debug)]
pub struct Rect {
    pub x: i64,
    pub y: i64,
    pub w: i64,
    pub h: i64,
}

impl Vec2 {
    /// Component-wise saturating sum.
    pub open spec fn plus(self, other: Vec2) -> Vec2 {
        Vec2 { x: clamp_i64(self.x + other.x) as i64, y: clamp_i64(self.y + other.y) as i64 }
    }

    /// Component-wise saturating difference.
    pub open spec fn minus(self, other: Vec2) -> Vec2 {
        Vec2 { x: clamp_i64(self.x - other.x) as i64, y: clamp_i64(self.y - other.y) as i64 }
    }

    /// The displacement after `dt` milliseconds at velocity `self`.
    pub open spec fn over(self, dt: i64) -> Vec2 {
        Vec2 { x: travel(self.x as int, dt as int) as i64, y: travel(self.y as int, dt as int) as i64 }
    }

    /// The vector with the given components.
    pub fn new(x: i64, y: i64) -> (v: Vec2)
        ensures
            v == (Vec2 { x, y }),
    {
        Vec2 { x, y }
    }

    /// The vector of no length.
    pub fn zero() -> (v: Vec2)
        ensures
            v == (Vec2 { x: 0, y: 0 }),
    {
        Vec2 { x: 0, y: 0 }
    }

    /// Component-wise saturating sum.
    pub fn add_vec(self, other: Vec2) -> (v: Vec2)
        ensures
            v == self.plus(other),
    {
        Vec2 { x: add_sat(self.x, other.x), y: add_sat(self.y, other.y) }
    }

    /// Component-wise saturating difference.
    pub fn sub_vec(self, other: Vec2) -> (v: Vec2)
        ensures
            v == self.minus(other),
    {
        Vec2 { x: sub_sat(self.x, other.x), y: sub_sat(self.y, other.y) }
    }

    /// The displacement after `dt` milliseconds at velocity `self`.
    pub fn scaled(self, dt: i64) -> (v: Vec2)
        ensures
            v == self.over(dt),
    {
        Vec2 { x: distance(self.x, dt), y: distance(self.y, dt) }
    }
}

impl Rect {
    /// Two rectangles overlap when they share at least an edge point.
    pub open spec fn spec_overlaps(self, other: Rect) -> bool {
        &&& self.x <= other.x + other.w
        &&& self.x + self.w >= other.x
        &&& self.y <= other.y + other.h
        &&& self.y + self.h >= other.y
    }

    /// A rectangle holds its left and top edges but not its right and bottom ones.
    pub open spec fn spec_contains(self, p: Vec2) -> bool {
        &&& p.x >= self.x
        &&& p.x < self.x + self.w
        &&& p.y < self.y + self.h
        &&& p.y >= self.y
    }

    /// The rectangle with the given corner and size.
    pub fn new(x: i64, y: i64, w: i64, h: i64) -> (r: Rect)
        ensures
            r == (Rect { x, y, w, h }),
    {
        Rect { x, y, w, h }
    }

    /// The rectangle at the origin with no extent.
    pub fn empty() -> (r: Rect)
        ensures
            r == (Rect { x: 0, y: 0, w: 0, h: 0 }),
    {
        Rect { x: 0, y: 0, w: 0, h: 0 }
    }

    /// Whether two rectangles share at least an edge point.
    pub fn overlaps(&self, other: &Rect) -> (b: bool)
        ensures
            b == self.spec_overlaps(*other),
    {
        let right: i128 = self.x as i128 + self.w as i128;
        let bottom: i128 = self.y as i128 + self.h as i128;
        let other_right: i128 = other.x as i128 + other.w as i128;
        let other_bottom: i128 = other.y as i128 + other.h as i128;
        self.x as i128 <= other_right && right >= other.x as i128 && self.y as i128 <= other_bottom
            && bottom >= other.y as i128
    }

    /// Whether a point lies in the rectangle, its right and bottom edges excluded.
    pub fn contains(&self, p: Vec2) -> (b: bool)
        ensures
            b == self.spec_contains(p),
    {
        let right: i128 = self.x as i128 + self.w as i128;
        let bottom: i128 = self.y as i128 + self.h as i128;
        p.x >= self.x && (p.x as i128) < right && (p.y as i128) < bottom && p.y >= self.y
    }
}

} // verus!
