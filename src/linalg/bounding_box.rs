use vstd::prelude::*;

use crate::linalg::point2::Point2;

verus! {

/// Number of columns of the box spanned by `min` and `max` (inclusive).
pub open spec fn box_width(min: Point2, max: Point2) -> int {
    max.x - min.x + 1
}

/// Number of rows of the box spanned by `min` and `max` (inclusive).
pub open spec fn box_height(min: Point2, max: Point2) -> int {
    max.y - min.y + 1
}

/// The `i`-th point of the box in row-major order.
pub open spec fn box_point(min: Point2, max: Point2, i: int) -> Point2 {
    Point2 {
        x: (min.x + i % box_width(min, max)) as usize,
        y: (min.y + i / box_width(min, max)) as usize,
    }
}

/// Whether `p` lies in the box spanned by `min` and `max`.
pub open spec fn in_box(min: Point2, max: Point2, p: Point2) -> bool {
    min.x <= p.x <= max.x && min.y <= p.y <= max.y
}

/// A box whose corners are ordered and whose far corner can be stepped past.
pub open spec fn box_ok(min: Point2, max: Point2) -> bool {
    min.x <= max.x && min.y <= max.y && max.x < usize::MAX && max.y < usize::MAX
}

proof fn lemma_successor_div_mod(t: int, w: int)
    requires
        w > 0,
        t >= 0,
    ensures
        t % w + 1 < w ==> (t + 1) % w == t % w + 1 && (t + 1) / w == t / w,
        t % w + 1 == w ==> (t + 1) % w == 0 && (t + 1) / w == t / w + 1,
        0 <= t % w < w,
        t / w >= 0,
{
    vstd::arithmetic::div_mod::lemma_fundamental_div_mod(t, w);
    let q = t / w;
    let r = t % w;
    assert(q >= 0) by (nonlinear_arith)
        requires
            t == w * q + r,
            0 <= r < w,
            t >= 0,
    ;
    if r + 1 < w {
        assert(t + 1 == q * w + (r + 1)) by (nonlinear_arith)
            requires
                t == w * q + r,
        ;
        vstd::arithmetic::div_mod::lemma_fundamental_div_mod_converse(t + 1, w, q, r + 1);
    } else {
        assert(t + 1 == (q + 1) * w + 0) by (nonlinear_arith)
            requires
                t == w * q + r,
                r + 1 == w,
        ;
        vstd::arithmetic::div_mod::lemma_fundamental_div_mod_converse(t + 1, w, q + 1, 0);
    }
}

/// Walks every point of an axis-aligned box, row by row, from `min` to `max`
/// inclusive.
pub struct BoundingBox {
    x: usize,
    y: usize,
    min: Point2,
    max: Point2,
    taken: Ghost<int>,
}

impl BoundingBox {
    /// The box's top-left corner.
    pub closed spec fn min(&self) -> Point2 {
        self.min
    }

    /// The box's bottom-right corner.
    pub closed spec fn max(&self) -> Point2 {
        self.max
    }

    /// How many points have been emitted so far.
    pub closed spec fn taken(&self) -> int {
        self.taken@
    }

    /// How many points the box has.
    pub open spec fn size(&self) -> int {
        box_width(self.min(), self.max()) * box_height(self.min(), self.max())
    }

    /// The state's invariant.
    pub closed spec fn wf(&self) -> bool {
        let w = box_width(self.min, self.max);
        let t = self.taken@;
        &&& box_ok(self.min, self.max)
        &&& 0 <= t <= self.size()
        &&& self.x == self.min.x + t % w
        &&& self.y == self.min.y + t / w
    }

    /// The box spanned by `min` (top-left) and `max` (bottom-right).
    pub fn new(min: Point2, max: Point2) -> (r: BoundingBox)
        requires
            box_ok(min, max),
        ensures
            r.wf(),
            r.min() == min,
            r.max() == max,
            r.taken() == 0,
    {
        proof {
            let w = box_width(min, max);
            let h = box_height(min, max);
            assert(w * h >= 0) by (nonlinear_arith)
                requires
                    w > 0,
                    h > 0,
            ;
            lemma_successor_div_mod(0, w);
            vstd::arithmetic::div_mod::lemma_fundamental_div_mod_converse(0, w, 0, 0);
        }
        BoundingBox { x: min.x, y: min.y, min, max, taken: Ghost(0) }
    }

    /// The next point of the box, or `None` once all were emitted.
    pub fn next(&mut self) -> (r: Option<Point2>)
        requires
            old(self).wf(),
        ensures
            final(self).wf(),
            final(self).min() == old(self).min(),
            final(self).max() == old(self).max(),
            old(self).taken() == old(self).size() ==> r is None && final(self).taken()
                == old(self).taken(),
            old(self).taken() < old(self).size() ==> r == Some(
                box_point(old(self).min(), old(self).max(), old(self).taken()),
            ) && final(self).taken() == old(self).taken() + 1,
    {
        let ghost t = self.taken@;
        let ghost w = box_width(self.min, self.max);
        let ghost h = box_height(self.min, self.max);
        proof {
            lemma_successor_div_mod(t, w);
            vstd::arithmetic::div_mod::lemma_fundamental_div_mod(t, w);
            if t < w * h {
                assert(t / w < h) by (nonlinear_arith)
                    requires
                        t == w * (t / w) + t % w,
                        0 <= t % w,
                        t < w * h,
                        w > 0,
                ;
            } else {
                vstd::arithmetic::div_mod::lemma_fundamental_div_mod_converse(t, w, h, 0);
            }
        }
        if self.y > self.max.y {
            return None;
        }
        let point = Point2 { x: self.x, y: self.y };
        self.x = self.x + 1;
        if self.x > self.max.x {
            self.x = self.min.x;
            self.y = self.y + 1;
        }
        self.taken = Ghost(t + 1);
        Some(point)
    }
}

} // verus!
