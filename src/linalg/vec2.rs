use vstd::prelude::*;

verus! {

/// A signed displacement, used for sizes and directional offsets.
#[derive(Clone, Copy, Debug, PartialEq, Eq, Structural)]
pub struct Vec2 {
    pub x: isize,
    pub y: isize,
}

impl Vec2 {
    pub fn new(x: isize, y: isize) -> (r: Vec2)
        ensures
            r.x == x,
            r.y == y,
    {
        Vec2 { x, y }
    }

    /// Builds a vector from unsigned components, which must fit in `isize`.
    pub fn from_signed(x: usize, y: usize) -> (r: Vec2)
        requires
            x <= isize::MAX,
            y <= isize::MAX,
        ensures
            r.x == x,
            r.y == y,
    {
        Vec2 { x: x as isize, y: y as isize }
    }

    /// The product of the two components (the area of a size).
    pub fn scalar_product(&self) -> (r: isize)
        requires
            isize::MIN <= self.x * self.y <= isize::MAX,
        ensures
            r == self.x * self.y,
    {
        self.x * self.y
    }

    /// Componentwise sum.
    pub fn add(self, rhs: Vec2) -> (r: Vec2)
        requires
            isize::MIN <= self.x + rhs.x <= isize::MAX,
            isize::MIN <= self.y + rhs.y <= isize::MAX,
        ensures
            r.x == self.x + rhs.x,
            r.y == self.y + rhs.y,
    {
        Vec2 { x: self.x + rhs.x, y: self.y + rhs.y }
    }

    /// In-place form of [`Vec2::add`].
    pub fn add_assign(&mut self, rhs: Vec2)
        requires
            isize::MIN <= old(self).x + rhs.x <= isize::MAX,
            isize::MIN <= old(self).y + rhs.y <= isize::MAX,
        ensures
            final(self).x == old(self).x + rhs.x,
            final(self).y == old(self).y + rhs.y,
    {
        self.x = self.x + rhs.x;
        self.y = self.y + rhs.y;
    }

    /// One step to the right.
    pub fn right() -> (r: Vec2)
        ensures
            r.x == 1 && r.y == 0,
    {
        Vec2 { x: 1, y: 0 }
    }

    /// Adds the same amount to both components.
    pub fn add_scalar(self, rhs: isize) -> (r: Vec2)
        requires
            isize::MIN <= self.x + rhs <= isize::MAX,
            isize::MIN <= self.y + rhs <= isize::MAX,
        ensures
            r.x == self.x + rhs,
            r.y == self.y + rhs,
    {
        Vec2 { x: self.x + rhs, y: self.y + rhs }
    }
}

} // verus!
