use vstd::prelude::*;

use crate::linalg::vec2::Vec2;

verus! {

/// A grid coordinate: column `x` and row `y`, both non-negative.
#[derive(Clone, Copy, Debug, PartialEq, Eq, Structural)]
pub struct Point2 {
    pub x: usize,
    pub y: usize,
}

/// `v` clamped into the range of `usize`.
pub open spec fn clamp_usize(v: int) -> int {
    if v < 0 {
        0
    } else if v > usize::MAX {
        usize::MAX as int
    } else {
        v
    }
}

/// Adds a signed amount to an unsigned one, saturating at both ends.
pub fn saturating_add_signed(a: usize, d: isize) -> (r: usize)
    ensures
        r == clamp_usize(a + d),
{
    if d >= 0 {
        a.saturating_add(d as usize)
    } else {
        let m: usize = ((-(d + 1)) as usize) + 1;
        a.saturating_sub(m)
    }
}

impl Point2 {
    /// The origin.
    pub fn zero() -> (r: Point2)
        ensures
            r.x == 0 && r.y == 0,
    {
        Point2 { x: 0, y: 0 }
    }

    pub fn new(x: usize, y: usize) -> (r: Point2)
        ensures
            r.x == x,
            r.y == y,
    {
        Point2 { x, y }
    }

    /// Builds a point from signed coordinates; a negative one becomes 0.
    pub fn from_signed(x: isize, y: isize) -> (r: Point2)
        ensures
            r.x == clamp_usize(x as int),
            r.y == clamp_usize(y as int),
    {
        Point2 { x: if x < 0 { 0 } else { x as usize }, y: if y < 0 { 0 } else { y as usize } }
    }

    /// Moves the point by `v`, each coordinate saturating at 0 and at `usize::MAX`.
    pub fn add(self, v: Vec2) -> (r: Point2)
        ensures
            r.x == clamp_usize(self.x + v.x),
            r.y == clamp_usize(self.y + v.y),
    {
        Point2 { x: saturating_add_signed(self.x, v.x), y: saturating_add_signed(self.y, v.y) }
    }

    /// In-place form of [`Point2::add`].
    pub fn add_assign(&mut self, v: Vec2)
        ensures
            final(self).x == clamp_usize(old(self).x + v.x),
            final(self).y == clamp_usize(old(self).y + v.y),
    {
        self.x = saturating_add_signed(self.x, v.x);
        self.y = saturating_add_signed(self.y, v.y);
    }
}

} // verus!
