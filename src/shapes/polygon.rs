use vstd::prelude::*;

use crate::linalg::bounding_box::{box_ok, in_box, BoundingBox};
use crate::linalg::bresenham::{line_points, segment};
use crate::linalg::point2::Point2;

verus! {

/// Vertex coordinates stay below this bound, which keeps the line-drawing
/// error terms within `isize` on any target and the shoelace sums within
/// `i128`.
pub const COORD_BOUND: usize = 0x2000_0000;

/// Whether a vertex is within the coordinate bound.
pub open spec fn small(p: Point2) -> bool {
    p.x < COORD_BOUND && p.y < COORD_BOUND
}

/// Whether every vertex of a ring is within the coordinate bound.
pub open spec fn all_small(vs: Seq<Point2>) -> bool {
    forall|i: int| 0 <= i < vs.len() ==> small(#[trigger] vs[i])
}

/// The vertex after vertex `i`, wrapping round.
pub open spec fn next_vertex(vs: Seq<Point2>, i: int) -> Point2 {
    vs[(i + 1) % (vs.len() as int)]
}

/// Cross product of edge `i` (from vertex `i` to the next) with the vector
/// from vertex `i` to `p`.
pub open spec fn edge_cross(vs: Seq<Point2>, i: int, p: Point2) -> int {
    let a = vs[i];
    let b = next_vertex(vs, i);
    (b.x - a.x) * (p.y - a.y) - (b.y - a.y) * (p.x - a.x)
}

/// `p` lies inside the ring or on its border: no two edges see it on
/// opposite sides.
pub open spec fn inside(vs: Seq<Point2>, p: Point2) -> bool {
    (forall|i: int| 0 <= i < vs.len() ==> #[trigger] edge_cross(vs, i, p) >= 0) || (forall|i: int|
        0 <= i < vs.len() ==> #[trigger] edge_cross(vs, i, p) <= 0)
}

/// The shoelace term of edge `i`.
pub open spec fn shoelace_term(vs: Seq<Point2>, i: int) -> int {
    let a = vs[i];
    let b = next_vertex(vs, i);
    a.x * b.y - b.x * a.y
}

/// Sum of the shoelace terms of the first `k` edges.
pub open spec fn shoelace(vs: Seq<Point2>, k: int) -> int
    decreases k,
{
    if k <= 0 {
        0
    } else {
        shoelace(vs, k - 1) + shoelace_term(vs, k - 1)
    }
}

/// Twice the signed area of the ring; positive when its vertices turn
/// counter-clockwise in a y-up frame.
pub open spec fn double_area(vs: Seq<Point2>) -> int {
    shoelace(vs, vs.len() as int)
}

/// Sum over the first `k` edges of `(a.x + b.x) * term`, the x-moment.
pub open spec fn moment_x(vs: Seq<Point2>, k: int) -> int
    decreases k,
{
    if k <= 0 {
        0
    } else {
        moment_x(vs, k - 1) + (vs[k - 1].x + next_vertex(vs, k - 1).x) * shoelace_term(vs, k - 1)
    }
}

/// Sum over the first `k` edges of `(a.y + b.y) * term`, the y-moment.
pub open spec fn moment_y(vs: Seq<Point2>, k: int) -> int
    decreases k,
{
    if k <= 0 {
        0
    } else {
        moment_y(vs, k - 1) + (vs[k - 1].y + next_vertex(vs, k - 1).y) * shoelace_term(vs, k - 1)
    }
}

/// The shoelace term `a.x * b.y - b.x * a.y`.
fn shoelace_step(a: Point2, b: Point2) -> (r: i128)
    requires
        small(a),
        small(b),
    ensures
        r == a.x * b.y - b.x * a.y,
        -0x400_0000_0000_0000 <= r <= 0x400_0000_0000_0000,
{
    let ax = a.x as i128;
    let ay = a.y as i128;
    let bx = b.x as i128;
    let by = b.y as i128;
    assert(0 <= ax * by < 0x400_0000_0000_0000) by (nonlinear_arith)
        requires
            0 <= ax < 0x2000_0000,
            0 <= by < 0x2000_0000,
    ;
    assert(0 <= bx * ay < 0x400_0000_0000_0000) by (nonlinear_arith)
        requires
            0 <= bx < 0x2000_0000,
            0 <= ay < 0x2000_0000,
    ;
    ax * by - bx * ay
}

/// Cross product of `b - a` with `p - a`.
fn cross(a: Point2, b: Point2, p: Point2) -> (r: i128)
    requires
        small(a),
        small(b),
    ensures
        r == (b.x - a.x) * (p.y - a.y) - (b.y - a.y) * (p.x - a.x),
{
    let ex = b.x as i128 - a.x as i128;
    let ey = b.y as i128 - a.y as i128;
    let px = p.x as i128 - a.x as i128;
    let py = p.y as i128 - a.y as i128;
    assert(-0x100_0000_0000_0000_0000_0000_0000 < ex * py < 0x100_0000_0000_0000_0000_0000_0000)
        by (nonlinear_arith)
        requires
            -0x2000_0000 < ex < 0x2000_0000,
            -0x1_0000_0000_0000_0000 < py < 0x1_0000_0000_0000_0000,
    ;
    assert(-0x100_0000_0000_0000_0000_0000_0000 < ey * px < 0x100_0000_0000_0000_0000_0000_0000)
        by (nonlinear_arith)
        requires
            -0x2000_0000 < ey < 0x2000_0000,
            -0x1_0000_0000_0000_0000 < px < 0x1_0000_0000_0000_0000,
    ;
    ex * py - ey * px
}

/// `p` lies in the axis-aligned bounding box of the ring.
pub open spec fn in_vertex_box(vs: Seq<Point2>, p: Point2) -> bool {
    &&& exists|i: int| 0 <= i < vs.len() && #[trigger] vs[i].x <= p.x
    &&& exists|i: int| 0 <= i < vs.len() && #[trigger] vs[i].x >= p.x
    &&& exists|i: int| 0 <= i < vs.len() && #[trigger] vs[i].y <= p.y
    &&& exists|i: int| 0 <= i < vs.len() && #[trigger] vs[i].y >= p.y
}

/// Row-major order: `p` comes before `q`.
pub open spec fn row_major_before(p: Point2, q: Point2) -> bool {
    p.y < q.y || (p.y == q.y && p.x < q.x)
}

/// The outline of the first `k` edges: each edge's segment, after its start.
pub open spec fn outline_upto(vs: Seq<Point2>, k: int) -> Seq<Point2>
    decreases k,
{
    if k <= 0 {
        Seq::empty()
    } else {
        outline_upto(vs, k - 1) + line_points(vs[k - 1], next_vertex(vs, k - 1))
    }
}

/// The outline of the whole ring, in vertex order with wraparound.
pub open spec fn outline(vs: Seq<Point2>) -> Seq<Point2> {
    outline_upto(vs, vs.len() as int)
}

/// The centroid `(moment_x / (3 * area2), moment_y / (3 * area2))` of the ring,
/// with a positive denominator.
pub open spec fn centroid_of(vs: Seq<Point2>) -> (int, int, int) {
    let s = double_area(vs);
    let mx = moment_x(vs, vs.len() as int);
    let my = moment_y(vs, vs.len() as int);
    if s > 0 {
        (mx, my, 3 * s)
    } else {
        (-mx, -my, -3 * s)
    }
}

/// A point with rational coordinates `(x / den, y / den)`, `den > 0`.
#[derive(Clone, Copy, Debug, PartialEq, Eq, Structural)]
pub struct RationalPoint {
    pub x: i128,
    pub y: i128,
    pub den: i128,
}

/// `(x / den, y / den)` and `(x2 / den2, y2 / den2)` are the same point.
pub open spec fn same_point(p: RationalPoint, q: RationalPoint) -> bool {
    p.x * q.den == q.x * p.den && p.y * q.den == q.y * p.den
}

/// A convex polygon of `N` vertices. It keeps its reference pose, never
/// changed after construction, and its current pose, which a transform step
/// recomputes from the reference pose.
#[derive(Clone, Copy, Debug)]
pub struct ConvexPolygon<const N: usize> {
    vertices_curr: [Point2; N],
    vertices_orig: [Point2; N],
}

impl<const N: usize> ConvexPolygon<N> {
    /// Every polygon has at least three vertices, all within the coordinate
    /// bound.
    #[verifier::type_invariant]
    pub closed spec fn inv(self) -> bool {
        &&& N >= 3
        &&& N <= COORD_BOUND
        &&& all_small(self.vertices_curr@)
        &&& all_small(self.vertices_orig@)
    }

    /// The reference pose.
    pub closed spec fn original(&self) -> Seq<Point2> {
        self.vertices_orig@
    }

    /// The current pose.
    pub closed spec fn current(&self) -> Seq<Point2> {
        self.vertices_curr@
    }

    /// A polygon whose reference and current poses are `vertices`.
    pub fn from_vertices(vertices: [Point2; N]) -> (r: ConvexPolygon<N>)
        requires
            N >= 3,
            N <= COORD_BOUND,
            all_small(vertices@),
        ensures
            r.original() == vertices@,
            r.current() == vertices@,
    {
        ConvexPolygon { vertices_curr: vertices, vertices_orig: vertices }
    }

    /// The reference pose.
    pub fn get_original_vertices(&self) -> (r: &[Point2; N])
        ensures
            r@ == self.original(),
            all_small(r@),
            N >= 3,
    {
        proof {
            use_type_invariant(self);
        }
        &self.vertices_orig
    }

    /// The current pose.
    pub fn get_current_vertices(&self) -> (r: &[Point2; N])
        ensures
            r@ == self.current(),
            all_small(r@),
            N >= 3,
    {
        proof {
            use_type_invariant(self);
        }
        &self.vertices_curr
    }

    /// Whether `point` lies inside the current pose or on its border: every
    /// edge's cross product with it has one sign or is zero.
    pub fn contains(&self, point: Point2) -> (r: bool)
        ensures
            r == inside(self.current(), point),
    {
        proof {
            use_type_invariant(self);
        }
        let ghost vs = self.vertices_curr@;
        let mut first_sign: Option<bool> = None;
        let mut i: usize = 0;
        while i < N
            invariant
                0 <= i <= N,
                vs == self.current(),
                vs.len() == N,
                N >= 3,
                all_small(vs),
                first_sign is None ==> forall|j: int| 0 <= j < i ==> #[trigger] edge_cross(vs, j, point) == 0,
                first_sign == Some(true) ==> forall|j: int|
                    0 <= j < i ==> #[trigger] edge_cross(vs, j, point) >= 0,
                first_sign == Some(false) ==> forall|j: int|
                    0 <= j < i ==> #[trigger] edge_cross(vs, j, point) <= 0,
                first_sign == Some(true) ==> exists|j: int|
                    0 <= j < i && #[trigger] edge_cross(vs, j, point) > 0,
                first_sign == Some(false) ==> exists|j: int|
                    0 <= j < i && #[trigger] edge_cross(vs, j, point) < 0,
            decreases N - i,
        {
            let p1 = self.vertices_curr[i];
            let p2 = self.vertices_curr[(i + 1) % N];
            let c = cross(p1, p2, point);
            assert(c == edge_cross(vs, i as int, point));
            if c != 0 {
                let positive = c > 0;
                match first_sign {
                    Some(sign) => {
                        if sign != positive {
                            proof {
                                let j = choose|j: int|
                                    0 <= j < i && #[trigger] edge_cross(vs, j, point) != 0
                                        && (edge_cross(vs, j, point) > 0) == sign;
                                assert(!(edge_cross(vs, j, point) >= 0) || !(edge_cross(vs, i as int, point) >= 0));
                                assert(!(edge_cross(vs, j, point) <= 0) || !(edge_cross(vs, i as int, point) <= 0));
                            }
                            return false;
                        }
                    },
                    None => {
                        first_sign = Some(positive);
                    },
                }
            }
            i = i + 1;
        }
        proof {
            match first_sign {
                Some(false) => {
                    assert forall|j: int| 0 <= j < vs.len() implies #[trigger] edge_cross(vs, j, point) <= 0 by {}
                },
                _ => {
                    assert forall|j: int| 0 <= j < vs.len() implies #[trigger] edge_cross(vs, j, point) >= 0 by {}
                },
            }
        }
        true
    }

    /// Twice the signed area of the reference pose (shoelace formula); the
    /// sign gives the winding.
    pub fn double_area(&self) -> (r: i128)
        ensures
            r == double_area(self.original()),
    {
        proof {
            use_type_invariant(self);
        }
        let ghost vs = self.vertices_orig@;
        let mut acc: i128 = 0;
        let mut i: usize = 0;
        while i < N
            invariant
                0 <= i <= N,
                vs == self.original(),
                vs.len() == N,
                N >= 3,
                N <= COORD_BOUND,
                all_small(vs),
                acc == shoelace(vs, i as int),
                -i * 0x400_0000_0000_0000 <= acc <= i * 0x400_0000_0000_0000,
            decreases N - i,
        {
            let a = self.vertices_orig[i];
            let b = self.vertices_orig[(i + 1) % N];
            let term = shoelace_step(a, b);
            assert(term == shoelace_term(vs, i as int));
            acc = acc + term;
            i = i + 1;
        }
        acc
    }

    /// The centroid of the reference pose, from the shoelace-weighted
    /// formula. A ring of zero area has none.
    pub fn center(&self) -> (r: RationalPoint)
        requires
            double_area(self.original()) != 0,
        ensures
            (r.x as int, r.y as int, r.den as int) == centroid_of(self.original()),
            r.den > 0,
    {
        proof {
            use_type_invariant(self);
        }
        let ghost vs = self.vertices_orig@;
        let mut area: i128 = 0;
        let mut mx: i128 = 0;
        let mut my: i128 = 0;
        let mut i: usize = 0;
        while i < N
            invariant
                0 <= i <= N,
                vs == self.original(),
                vs.len() == N,
                N >= 3,
                N <= COORD_BOUND,
                all_small(vs),
                area == shoelace(vs, i as int),
                mx == moment_x(vs, i as int),
                my == moment_y(vs, i as int),
                -i * 0x400_0000_0000_0000 <= area <= i * 0x400_0000_0000_0000,
                -i * 0x100_0000_0000_0000_0000_0000 <= mx <= i * 0x100_0000_0000_0000_0000_0000,
                -i * 0x100_0000_0000_0000_0000_0000 <= my <= i * 0x100_0000_0000_0000_0000_0000,
            decreases N - i,
        {
            let a = self.vertices_orig[i];
            let b = self.vertices_orig[(i + 1) % N];
            let term = shoelace_step(a, b);
            assert(term == shoelace_term(vs, i as int));
            let sx = a.x as i128 + b.x as i128;
            let sy = a.y as i128 + b.y as i128;
            assert(-0x100_0000_0000_0000_0000_0000 <= sx * term <= 0x100_0000_0000_0000_0000_0000)
                by (nonlinear_arith)
                requires
                    0 <= sx < 0x4000_0000,
                    -0x400_0000_0000_0000 <= term <= 0x400_0000_0000_0000,
            ;
            assert(-0x100_0000_0000_0000_0000_0000 <= sy * term <= 0x100_0000_0000_0000_0000_0000)
                by (nonlinear_arith)
                requires
                    0 <= sy < 0x4000_0000,
                    -0x400_0000_0000_0000 <= term <= 0x400_0000_0000_0000,
            ;
            area = area + term;
            mx = mx + sx * term;
            my = my + sy * term;
            i = i + 1;
        }
        assert(area == double_area(vs));
        assert(area != 0);
        assert(-0x800_0000_0000_0000_0000_0000 <= area <= 0x800_0000_0000_0000_0000_0000) by (nonlinear_arith)
            requires
                -i * 0x400_0000_0000_0000 <= area <= i * 0x400_0000_0000_0000,
                i <= 0x2000_0000,
        ;
        let den = 3 * area;
        if area > 0 {
            RationalPoint { x: mx, y: my, den }
        } else {
            RationalPoint { x: -mx, y: -my, den: -den }
        }
    }

    /// The axis-aligned box spanned by the current pose.
    pub fn bounding_box(&self) -> (r: BoundingBox)
        ensures
            r.wf(),
            r.taken() == 0,
            forall|p: Point2| in_box(r.min(), r.max(), p) <==> in_vertex_box(self.current(), p),
    {
        proof {
            use_type_invariant(self);
        }
        let (lo, hi) = self.vertex_box();
        BoundingBox::new(lo, hi)
    }

    /// The corners of the current pose's bounding box.
    fn vertex_box(&self) -> (r: (Point2, Point2))
        ensures
            box_ok(r.0, r.1),
            small(r.0) && small(r.1),
            forall|p: Point2| in_box(r.0, r.1, p) <==> in_vertex_box(self.current(), p),
    {
        proof {
            use_type_invariant(self);
        }
        let ghost vs = self.vertices_curr@;
        let mut min_x = self.vertices_curr[0].x;
        let mut max_x = self.vertices_curr[0].x;
        let mut min_y = self.vertices_curr[0].y;
        let mut max_y = self.vertices_curr[0].y;
        let mut i: usize = 1;
        while i < N
            invariant
                1 <= i <= N,
                vs == self.current(),
                vs.len() == N,
                all_small(vs),
                forall|j: int| 0 <= j < i ==> min_x <= #[trigger] vs[j].x <= max_x,
                forall|j: int| 0 <= j < i ==> min_y <= #[trigger] vs[j].y <= max_y,
                exists|j: int| 0 <= j < i && #[trigger] vs[j].x == min_x,
                exists|j: int| 0 <= j < i && #[trigger] vs[j].x == max_x,
                exists|j: int| 0 <= j < i && #[trigger] vs[j].y == min_y,
                exists|j: int| 0 <= j < i && #[trigger] vs[j].y == max_y,
            decreases N - i,
        {
            let v = self.vertices_curr[i];
            if v.x < min_x {
                min_x = v.x;
            }
            if v.x > max_x {
                max_x = v.x;
            }
            if v.y < min_y {
                min_y = v.y;
            }
            if v.y > max_y {
                max_y = v.y;
            }
            assert(vs[i as int] == v);
            i = i + 1;
        }
        let lo = Point2 { x: min_x, y: min_y };
        let hi = Point2 { x: max_x, y: max_y };
        proof {
            assert forall|p: Point2| in_box(lo, hi, p) <==> in_vertex_box(vs, p) by {
                if in_vertex_box(vs, p) {
                    let a = choose|i: int| 0 <= i < vs.len() && #[trigger] vs[i].x <= p.x;
                    let b = choose|i: int| 0 <= i < vs.len() && #[trigger] vs[i].x >= p.x;
                    let c = choose|i: int| 0 <= i < vs.len() && #[trigger] vs[i].y <= p.y;
                    let d = choose|i: int| 0 <= i < vs.len() && #[trigger] vs[i].y >= p.y;
                    assert(min_x <= vs[a].x && vs[b].x <= max_x);
                    assert(min_y <= vs[c].y && vs[d].y <= max_y);
                }
            }
        }
        (lo, hi)
    }

    /// Every grid point of the bounding box that the current pose contains,
    /// in row-major order.
    pub fn points_filled(&self) -> (r: Vec<Point2>)
        ensures
            forall|p: Point2|
                r@.contains(p) <==> in_vertex_box(self.current(), p) && inside(self.current(), p),
            forall|i: int, j: int|
                0 <= i < j < r@.len() ==> row_major_before(#[trigger] r@[i], #[trigger] r@[j]),
    {
        let ghost vs = self.current();
        let (lo, hi) = self.vertex_box();
        let mut out: Vec<Point2> = Vec::new();
        let mut y: usize = lo.y;
        while y <= hi.y
            invariant
                vs == self.current(),
                box_ok(lo, hi),
                small(lo) && small(hi),
                forall|p: Point2| in_box(lo, hi, p) <==> in_vertex_box(vs, p),
                lo.y <= y <= hi.y + 1,
                forall|p: Point2|
                    #[trigger] out@.contains(p) <==> in_box(lo, hi, p) && p.y < y && inside(vs, p),
                forall|i: int, j: int|
                    0 <= i < j < out@.len() ==> row_major_before(#[trigger] out@[i], #[trigger] out@[j]),
                forall|i: int| 0 <= i < out@.len() ==> (#[trigger] out@[i]).y < y,
            decreases hi.y + 1 - y,
        {
            let mut x: usize = lo.x;
            proof {
                assert forall|p: Point2|
                    #[trigger] out@.contains(p) <==> in_box(lo, hi, p) && (p.y < y || (p.y == y && p.x
                        < x)) && inside(vs, p) by {
                    assert(out@.contains(p) <==> in_box(lo, hi, p) && p.y < y && inside(vs, p));
                    assert(in_box(lo, hi, p) ==> lo.x <= p.x);
                }
            }
            while x <= hi.x
                invariant
                    vs == self.current(),
                    forall|p: Point2| in_box(lo, hi, p) <==> in_vertex_box(vs, p),
                    box_ok(lo, hi),
                    small(lo) && small(hi),
                    lo.y <= y <= hi.y,
                    lo.x <= x <= hi.x + 1,
                    forall|p: Point2|
                        #[trigger] out@.contains(p) <==> in_box(lo, hi, p) && (p.y < y || (p.y == y && p.x
                            < x)) && inside(vs, p),
                    forall|i: int, j: int|
                        0 <= i < j < out@.len() ==> row_major_before(
                            #[trigger] out@[i],
                            #[trigger] out@[j],
                        ),
                    forall|i: int|
                        0 <= i < out@.len() ==> row_major_before(
                            #[trigger] out@[i],
                            Point2 { x: x, y: y },
                        ),
                decreases hi.x + 1 - x,
            {
                let p = Point2 { x, y };
                let ghost before = out@;
                if self.contains(p) {
                    out.push(p);
                    proof {
                        assert(out@ == before.push(p));
                        assert forall|q: Point2|
                            #[trigger] out@.contains(q) <==> in_box(lo, hi, q) && (q.y < y || (q.y == y
                                && q.x < x + 1)) && inside(vs, q) by {
                            if out@.contains(q) && q != p {
                                let k = choose|k: int| 0 <= k < out@.len() && out@[k] == q;
                                assert(before[k] == q);
                            }
                            if before.contains(q) {
                                let k = choose|k: int| 0 <= k < before.len() && before[k] == q;
                                assert(out@[k] == q);
                            }
                            if q == p {
                                assert(out@[before.len() as int] == q);
                            }
                        }
                    }
                } else {
                    proof {
                        assert forall|q: Point2|
                            #[trigger] out@.contains(q) <==> in_box(lo, hi, q) && (q.y < y || (q.y == y
                                && q.x < x + 1)) && inside(vs, q) by {
                            if q == p {
                                assert(!inside(vs, q));
                            }
                        }
                    }
                }
                x = x + 1;
            }
            proof {
                assert forall|p: Point2|
                    #[trigger] out@.contains(p) <==> in_box(lo, hi, p) && p.y < y + 1 && inside(vs, p) by {
                    if in_box(lo, hi, p) && p.y == y {
                        assert(p.x < x);
                    }
                }
                assert forall|i: int| 0 <= i < out@.len() implies (#[trigger] out@[i]).y < y + 1 by {
                    assert(row_major_before(out@[i], Point2 { x: x, y: y }));
                }
            }
            y = y + 1;
        }
        proof {
            assert forall|p: Point2|
                #[trigger] out@.contains(p) <==> in_vertex_box(vs, p) && inside(vs, p) by {
                if in_box(lo, hi, p) {
                    assert(p.y < y);
                }
            }
        }
        out
    }

    /// The outline of the current pose: for each edge in vertex order, with
    /// wraparound, the points of its segment after its start.
    pub fn points_outline(&self) -> (r: Vec<Point2>)
        ensures
            r@ == outline(self.current()),
    {
        proof {
            use_type_invariant(self);
        }
        let ghost vs = self.vertices_curr@;
        let mut out: Vec<Point2> = Vec::new();
        let mut i: usize = 0;
        while i < N
            invariant
                0 <= i <= N,
                vs == self.current(),
                vs.len() == N,
                N >= 3,
                all_small(vs),
                out@ == outline_upto(vs, i as int),
            decreases N - i,
        {
            let a = self.vertices_curr[i];
            let b = self.vertices_curr[(i + 1) % N];
            let mut points = segment(a, b);
            out.append(&mut points);
            i = i + 1;
        }
        out
    }

    /// Replaces the current pose, as the transform step does after mapping
    /// every reference vertex through the accumulated transform.
    pub fn set_current_vertices(&mut self, vertices: [Point2; N])
        requires
            all_small(vertices@),
        ensures
            final(self).current() == vertices@,
            final(self).original() == old(self).original(),
    {
        proof {
            use_type_invariant(&*self);
        }
        self.vertices_curr = vertices;
    }
}

} // verus!
