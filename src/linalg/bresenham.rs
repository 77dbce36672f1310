use vstd::prelude::*;

use crate::linalg::point2::Point2;

verus! {

/// Absolute value of an integer.
pub open spec fn abs(v: int) -> int {
    if v < 0 {
        -v
    } else {
        v
    }
}

/// The larger of two integers.
pub open spec fn max(a: int, b: int) -> int {
    if a >= b {
        a
    } else {
        b
    }
}

/// Chebyshev distance: the number of king moves from `p` to `q`.
pub open spec fn cheb(p: Point2, q: Point2) -> int {
    max(abs(q.x - p.x), abs(q.y - p.y))
}

/// Number of points emitted for the segment from `p0` to `p1` (the start is
/// not emitted): `max(|dx|, |dy|)`.
pub open spec fn line_len(p0: Point2, p1: Point2) -> int {
    cheb(p0, p1)
}

/// Steps taken along the minor axis after `k` steps along the major one:
/// `k * minor / major` rounded to nearest, halves rounded down.
pub open spec fn minor_steps(k: int, major: int, minor: int) -> int {
    (2 * k * minor + major - 1) / (2 * major)
}

/// How far, along each axis, the `k`-th point of the segment lies from `p0`.
pub open spec fn line_offsets(p0: Point2, p1: Point2, k: int) -> (int, int) {
    let dx = abs(p1.x - p0.x);
    let dy = abs(p1.y - p0.y);
    if dx == 0 && dy == 0 {
        (0, 0)
    } else if dx >= dy {
        (k, minor_steps(k, dx, dy))
    } else {
        (minor_steps(k, dy, dx), k)
    }
}

/// Moves `from` by `n` units towards `to`.
pub open spec fn toward(from: int, to: int, n: int) -> int {
    if from < to {
        from + n
    } else {
        from - n
    }
}

/// The `k`-th point of the discrete segment from `p0` to `p1`; point 0 is `p0`.
pub open spec fn line_point(p0: Point2, p1: Point2, k: int) -> Point2 {
    let (a, b) = line_offsets(p0, p1, k);
    Point2 { x: toward(p0.x as int, p1.x as int, a) as usize, y: toward(p0.y as int, p1.y as int, b) as usize }
}

/// The points emitted for the segment: points `1..=line_len` of it.
pub open spec fn line_points(p0: Point2, p1: Point2) -> Seq<Point2> {
    Seq::new(line_len(p0, p1) as nat, |i: int| line_point(p0, p1, i + 1))
}

/// Coordinates small enough for the error arithmetic to fit in `isize`.
pub open spec fn coord_ok(p: Point2) -> bool {
    4 * p.x <= isize::MAX && 4 * p.y <= isize::MAX
}

/// One step of the rounding recurrence: the minor count grows by one exactly
/// when the doubled error `2 * e` falls below `major`, and the deviation from
/// the ideal line stays within half a cell.
proof fn lemma_minor_step(k: int, major: int, minor: int)
    requires
        0 <= minor <= major,
        0 < major,
        0 <= k,
    ensures
        ({
            let m = minor_steps(k, major, minor);
            let e = (m + 1) * major - (k + 1) * minor;
            &&& 0 <= m
            &&& -major <= 2 * (m * major - k * minor) <= major - 1
            &&& 2 * e == 2 * (m * major - k * minor) + 2 * major - 2 * minor
            &&& minor_steps(k + 1, major, minor) == if 2 * e < major {
                m + 1
            } else {
                m
            }
            &&& (m + 2) * major - (k + 2) * minor == e + major - minor
            &&& (m + 1) * major - (k + 2) * minor == e - minor
            &&& (minor == major ==> m == k)
            &&& (k == 0 ==> m == 0)
            &&& (k == major ==> m == minor)
            &&& (k <= major ==> m <= minor)
        }),
{
    let m = minor_steps(k, major, minor);
    let d = 2 * major;
    let km = k * minor;
    let mm = m * major;
    let n = 2 * km + major - 1;
    assert(2 * k * minor == 2 * km) by (nonlinear_arith)
        requires
            km == k * minor,
    ;
    assert(km >= 0) by (nonlinear_arith)
        requires
            k >= 0,
            minor >= 0,
            km == k * minor,
    ;
    let r = n % d;
    vstd::arithmetic::div_mod::lemma_fundamental_div_mod(n, d);
    assert(m * d == 2 * mm) by (nonlinear_arith)
        requires
            mm == m * major,
            d == 2 * major,
    ;
    assert(n == 2 * mm + r && 0 <= r < d);
    assert(0 <= m) by (nonlinear_arith)
        requires
            n == m * d + r,
            0 <= r < d,
            n >= 0,
            d > 0,
    ;
    let e = (m + 1) * major - (k + 1) * minor;
    assert(e == mm - km + major - minor) by (nonlinear_arith)
        requires
            e == (m + 1) * major - (k + 1) * minor,
            mm == m * major,
            km == k * minor,
    ;
    assert((m + 2) * major - (k + 2) * minor == e + major - minor) by (nonlinear_arith)
        requires
            e == (m + 1) * major - (k + 1) * minor,
    ;
    assert((m + 1) * major - (k + 2) * minor == e - minor) by (nonlinear_arith)
        requires
            e == (m + 1) * major - (k + 1) * minor,
    ;
    let n1 = n + 2 * minor;
    assert(2 * (k + 1) * minor == 2 * km + 2 * minor) by (nonlinear_arith)
        requires
            km == k * minor,
    ;
    if 2 * e < major {
        assert((m + 1) * d == 2 * mm + d) by (nonlinear_arith)
            requires
                mm == m * major,
                d == 2 * major,
        ;
        vstd::arithmetic::div_mod::lemma_fundamental_div_mod_converse(n1, d, m + 1, r + 2 * minor - d);
    } else {
        vstd::arithmetic::div_mod::lemma_fundamental_div_mod_converse(n1, d, m, r + 2 * minor);
    }
    if minor == major {
        assert(km == k * major);
        assert(m == k) by (nonlinear_arith)
            requires
                n == 2 * mm + r,
                mm == m * major,
                km == k * major,
                n == 2 * km + major - 1,
                0 <= r < 2 * major,
                major > 0,
        ;
    }
    if k == 0 {
        assert(km == 0) by (nonlinear_arith)
            requires
                k == 0,
                km == k * minor,
        ;
        assert(m == 0) by (nonlinear_arith)
            requires
                n == 2 * mm + r,
                mm == m * major,
                n == major - 1,
                0 <= r < 2 * major,
                major > 0,
        ;
    }
    if k <= major {
        assert(km <= major * minor) by (nonlinear_arith)
            requires
                km == k * minor,
                k <= major,
                minor >= 0,
        ;
        assert(m <= minor) by (nonlinear_arith)
            requires
                n == 2 * mm + r,
                mm == m * major,
                km <= major * minor,
                n == 2 * km + major - 1,
                0 <= r < 2 * major,
                major > 0,
        ;
    }
    if k == major {
        assert(m == minor) by (nonlinear_arith)
            requires
                n == 2 * mm + r,
                mm == m * major,
                km == k * minor,
                k == major,
                n == 2 * km + major - 1,
                0 <= r < 2 * major,
                major > 0,
        ;
    }
}

/// The minor-axis count keeps within one cell of the remaining major-axis
/// distance, so the Chebyshev distance to the end shrinks by one per point.
proof fn lemma_minor_close(k: int, major: int, minor: int)
    requires
        0 <= minor <= major,
        0 < major,
        0 <= k <= major,
    ensures
        minor - minor_steps(k, major, minor) <= major - k,
{
    lemma_minor_step(k, major, minor);
    let m = minor_steps(k, major, minor);
    assert(minor - m <= major - k) by (nonlinear_arith)
        requires
            -major <= 2 * (m * major - k * minor),
            0 <= minor <= major,
            0 < major,
            0 <= k <= major,
    ;
}

proof fn lemma_point_distance(p0: Point2, p1: Point2, k: int)
    requires
        coord_ok(p0),
        coord_ok(p1),
        0 <= k <= line_len(p0, p1),
    ensures
        cheb(line_point(p0, p1, k), p1) == line_len(p0, p1) - k,
{
    let dx = abs(p1.x - p0.x);
    let dy = abs(p1.y - p0.y);
    if line_len(p0, p1) > 0 {
        if dx >= dy {
            lemma_minor_step(k, dx, dy);
            lemma_minor_close(k, dx, dy);
        } else {
            lemma_minor_step(k, dy, dx);
            lemma_minor_close(k, dy, dx);
        }
    }
}

proof fn lemma_point_adjacent(p0: Point2, p1: Point2, k: int)
    requires
        coord_ok(p0),
        coord_ok(p1),
        0 <= k < line_len(p0, p1),
    ensures
        cheb(line_point(p0, p1, k), line_point(p0, p1, k + 1)) == 1,
{
    let dx = abs(p1.x - p0.x);
    let dy = abs(p1.y - p0.y);
    if dx >= dy {
        lemma_minor_step(k, dx, dy);
        lemma_minor_step(k + 1, dx, dy);
    } else {
        lemma_minor_step(k, dy, dx);
        lemma_minor_step(k + 1, dy, dx);
    }
}

/// The segment from `p0` to `p1` has `max(|dx|, |dy|)` points after its start
/// `p0`; each is one king move from the one before, one step closer (in
/// Chebyshev distance) to `p1`, and the last is `p1`.
pub proof fn lemma_line_shape(p0: Point2, p1: Point2)
    requires
        coord_ok(p0),
        coord_ok(p1),
    ensures
        line_points(p0, p1).len() == max(abs(p1.x - p0.x), abs(p1.y - p0.y)),
        line_point(p0, p1, 0) == p0,
        line_points(p0, p1).len() > 0 ==> line_points(p0, p1).last() == p1,
        forall|k: int|
            0 <= k <= line_len(p0, p1) ==> #[trigger] cheb(line_point(p0, p1, k), p1) == line_len(
                p0,
                p1,
            ) - k,
        forall|k: int|
            0 <= k < line_len(p0, p1) ==> cheb(
                #[trigger] line_point(p0, p1, k),
                line_point(p0, p1, k + 1),
            ) == 1,
{
    let len = line_len(p0, p1);
    lemma_point_distance(p0, p1, 0);
    if len > 0 {
        let dx = abs(p1.x - p0.x);
        let dy = abs(p1.y - p0.y);
        if dx >= dy {
            lemma_minor_step(0, dx, dy);
        } else {
            lemma_minor_step(0, dy, dx);
        }
        lemma_point_distance(p0, p1, len);
        assert(line_points(p0, p1).last() == line_point(p0, p1, len));
    }
    assert forall|k: int| 0 <= k <= len implies #[trigger] cheb(line_point(p0, p1, k), p1) == len
        - k by {
        lemma_point_distance(p0, p1, k);
    }
    assert forall|k: int| 0 <= k < len implies cheb(
        #[trigger] line_point(p0, p1, k),
        line_point(p0, p1, k + 1),
    ) == 1 by {
        lemma_point_adjacent(p0, p1, k);
    }
}

/// The points of the segment from `p0` to `p1`, after `p0`, up to and
/// including `p1`.
pub fn segment(p0: Point2, p1: Point2) -> (r: Vec<Point2>)
    requires
        coord_ok(p0),
        coord_ok(p1),
    ensures
        r@ == line_points(p0, p1),
{
    let mut it = Bresenham::new(p0, p1);
    let mut out: Vec<Point2> = Vec::new();
    loop
        invariant
            it.wf(),
            it.start() == p0,
            it.end() == p1,
            out@.len() == it.taken(),
            forall|i: int| 0 <= i < out@.len() ==> out@[i] == line_point(p0, p1, i + 1),
        decreases it.remaining(),
    {
        match it.next() {
            Some(p) => out.push(p),
            None => {
                assert(out@ =~= line_points(p0, p1));
                return out;
            },
        }
    }
}

/// An iterator over the discrete segment between two grid points, by the
/// integer error-accumulator method. It yields every point after the start,
/// up to and including the end.
pub struct Bresenham {
    x: isize,
    y: isize,
    end_x: isize,
    end_y: isize,
    sx: isize,
    sy: isize,
    dx: isize,
    dy: isize,
    err: isize,
    start: Ghost<Point2>,
    end: Ghost<Point2>,
    taken: Ghost<int>,
}

impl Bresenham {
    /// The segment's start.
    pub closed spec fn start(&self) -> Point2 {
        self.start@
    }

    /// The segment's end.
    pub closed spec fn end(&self) -> Point2 {
        self.end@
    }

    /// How many points have been emitted so far.
    pub closed spec fn taken(&self) -> int {
        self.taken@
    }

    /// How many points are still to come.
    pub open spec fn remaining(&self) -> int {
        line_len(self.start(), self.end()) - self.taken()
    }

    /// The state's invariant.
    pub closed spec fn wf(&self) -> bool {
        let p0 = self.start@;
        let p1 = self.end@;
        let dx = abs(p1.x - p0.x);
        let dy = abs(p1.y - p0.y);
        let k = self.taken@;
        let (a, b) = line_offsets(p0, p1, k);
        &&& coord_ok(p0)
        &&& coord_ok(p1)
        &&& self.end_x == p1.x
        &&& self.end_y == p1.y
        &&& self.dx == dx
        &&& self.dy == dy
        &&& self.sx == if p0.x < p1.x { 1int } else { -1int }
        &&& self.sy == if p0.y < p1.y { 1int } else { -1int }
        &&& 0 <= k <= line_len(p0, p1)
        &&& self.x == toward(p0.x as int, p1.x as int, a)
        &&& self.y == toward(p0.y as int, p1.y as int, b)
        &&& self.err == (b + 1) * dx - (a + 1) * dy
    }

    /// A line from `p0` to `p1`, positioned at `p0`.
    pub fn new(p0: Point2, p1: Point2) -> (r: Bresenham)
        requires
            coord_ok(p0),
            coord_ok(p1),
        ensures
            r.wf(),
            r.start() == p0,
            r.end() == p1,
            r.taken() == 0,
    {
        let dx: isize = if p1.x >= p0.x { (p1.x - p0.x) as isize } else { (p0.x - p1.x) as isize };
        let dy: isize = if p1.y >= p0.y { (p1.y - p0.y) as isize } else { (p0.y - p1.y) as isize };
        let err: isize = dx - dy;
        let sx: isize = if p0.x < p1.x { 1 } else { -1 };
        let sy: isize = if p0.y < p1.y { 1 } else { -1 };
        let r = Bresenham {
            x: p0.x as isize,
            y: p0.y as isize,
            end_x: p1.x as isize,
            end_y: p1.y as isize,
            sx,
            sy,
            dx,
            dy,
            err,
            start: Ghost(p0),
            end: Ghost(p1),
            taken: Ghost(0),
        };
        proof {
            if dx != 0 || dy != 0 {
                if dx >= dy {
                    lemma_minor_step(0, dx as int, dy as int);
                } else {
                    lemma_minor_step(0, dy as int, dx as int);
                }
            }
        }
        r
    }

    /// The next point of the segment, or `None` once the end was emitted.
    pub fn next(&mut self) -> (r: Option<Point2>)
        requires
            old(self).wf(),
        ensures
            final(self).wf(),
            final(self).start() == old(self).start(),
            final(self).end() == old(self).end(),
            old(self).remaining() == 0 ==> r is None && final(self).taken() == old(self).taken(),
            old(self).remaining() > 0 ==> r == Some(
                line_point(old(self).start(), old(self).end(), old(self).taken() + 1),
            ) && final(self).taken() == old(self).taken() + 1,
    {
        let ghost p0 = self.start@;
        let ghost p1 = self.end@;
        let ghost k = self.taken@;
        let ghost dxi = self.dx as int;
        let ghost dyi = self.dy as int;
        let ghost len = line_len(p0, p1);
        proof {
            if len > 0 {
                if dxi >= dyi {
                    lemma_minor_step(k, dxi, dyi);
                } else {
                    lemma_minor_step(k, dyi, dxi);
                }
            }
        }
        if self.x == self.end_x && self.y == self.end_y {
            return None;
        }
        proof {
            if len > 0 && k + 1 <= len {
                if dxi >= dyi {
                    lemma_minor_step(k + 1, dxi, dyi);
                } else {
                    lemma_minor_step(k + 1, dyi, dxi);
                }
            }
        }
        let curr_err = 2 * self.err;
        if curr_err > -self.dy {
            self.err = self.err - self.dy;
            self.x = self.x + self.sx;
        }
        if curr_err < self.dx {
            self.err = self.err + self.dx;
            self.y = self.y + self.sy;
        }
        self.taken = Ghost(k + 1);
        Some(Point2::from_signed(self.x, self.y))
    }
}

} // verus!
