use vstd::prelude::*;

use crate::linalg::bounding_box::{in_box, BoundingBox};
use crate::linalg::point2::Point2;
use crate::linalg::vec2::Vec2;
use crate::shapes::polygon::{
    all_small, centroid_of, double_area, inside, in_vertex_box, moment_x, moment_y, next_vertex,
    outline, row_major_before, shoelace, shoelace_term, small, ConvexPolygon, RationalPoint,
};

verus! {

/// A four-vertex polygon whose reference pose is given corner by corner:
/// top-left, top-right, bottom-right, bottom-left.
#[derive(Clone, Copy, Debug)]
pub struct Rectangle {
    polygon: ConvexPolygon<4>,
}

impl Rectangle {
    /// The reference pose.
    pub closed spec fn original(&self) -> Seq<Point2> {
        self.polygon.original()
    }

    /// The current pose.
    pub closed spec fn current(&self) -> Seq<Point2> {
        self.polygon.current()
    }

    /// The rectangle with corners `top_left` and `bottom_right`.
    pub fn from_corners(top_left: Point2, bottom_right: Point2) -> (r: Rectangle)
        requires
            top_left.x <= bottom_right.x,
            top_left.y <= bottom_right.y,
            small(top_left),
            small(bottom_right),
        ensures
            r.original() == seq![
                top_left,
                Point2 { x: bottom_right.x, y: top_left.y },
                bottom_right,
                Point2 { x: top_left.x, y: bottom_right.y },
            ],
            r.current() == r.original(),
    {
        let top_right = Point2 { x: bottom_right.x, y: top_left.y };
        let bottom_left = Point2 { x: top_left.x, y: bottom_right.y };
        let vertices = [top_left, top_right, bottom_right, bottom_left];
        assert(vertices@ =~= seq![top_left, top_right, bottom_right, bottom_left]);
        Self::from_vertices(vertices)
    }

    /// The rectangle with corner `top_left` and the given (non-negative) size.
    pub fn from_corner_and_size(top_left: Point2, size: Vec2) -> (r: Rectangle)
        requires
            size.x >= 0,
            size.y >= 0,
            small(top_left),
            small(Point2 { x: (top_left.x + size.x) as usize, y: (top_left.y + size.y) as usize }),
        ensures
            r.original() == seq![
                top_left,
                Point2 { x: (top_left.x + size.x) as usize, y: top_left.y },
                Point2 { x: (top_left.x + size.x) as usize, y: (top_left.y + size.y) as usize },
                Point2 { x: top_left.x, y: (top_left.y + size.y) as usize },
            ],
            r.current() == r.original(),
    {
        let bottom_right = top_left.add(size);
        Self::from_corners(top_left, bottom_right)
    }

    /// The rectangle whose reference pose is `vertices`.
    pub fn from_vertices(vertices: [Point2; 4]) -> (r: Rectangle)
        requires
            all_small(vertices@),
        ensures
            r.original() == vertices@,
            r.current() == vertices@,
    {
        Rectangle { polygon: ConvexPolygon::from_vertices(vertices) }
    }

    /// The underlying polygon.
    pub fn polygon(&self) -> (r: &ConvexPolygon<4>)
        ensures
            r.original() == self.original(),
            r.current() == self.current(),
    {
        &self.polygon
    }

    /// Horizontal extent of the reference pose, from its first to its third
    /// corner.
    pub fn width(&self) -> (r: usize)
        requires
            self.original()[0].x <= self.original()[2].x,
        ensures
            r == self.original()[2].x - self.original()[0].x,
    {
        let v = self.polygon.get_original_vertices();
        v[2].x - v[0].x
    }

    /// Vertical extent of the reference pose, from its first to its third
    /// corner.
    pub fn height(&self) -> (r: usize)
        requires
            self.original()[0].y <= self.original()[2].y,
        ensures
            r == self.original()[2].y - self.original()[0].y,
    {
        let v = self.polygon.get_original_vertices();
        v[2].y - v[0].y
    }

    /// Width and height of the reference pose.
    pub fn size(&self) -> (r: Vec2)
        requires
            self.original()[0].x <= self.original()[2].x,
            self.original()[0].y <= self.original()[2].y,
        ensures
            r.x == self.original()[2].x - self.original()[0].x,
            r.y == self.original()[2].y - self.original()[0].y,
    {
        let v = self.polygon.get_original_vertices();
        assert(small(v[0]) && small(v[2]));
        Vec2::from_signed(self.width(), self.height())
    }

    /// Width times height of the reference pose.
    pub fn area(&self) -> (r: u64)
        requires
            self.original()[0].x <= self.original()[2].x,
            self.original()[0].y <= self.original()[2].y,
        ensures
            r == (self.original()[2].x - self.original()[0].x) * (self.original()[2].y
                - self.original()[0].y),
    {
        let v = self.polygon.get_original_vertices();
        assert(small(v[0]) && small(v[2]));
        let w = self.width();
        let h = self.height();
        assert(w * h < 0x400_0000_0000_0000) by (nonlinear_arith)
            requires
                w < 0x2000_0000,
                h < 0x2000_0000,
        ;
        (w as u64) * (h as u64)
    }

    /// The midpoint of the first and third corners of the reference pose.
    pub fn center(&self) -> (r: RationalPoint)
        ensures
            r.x == self.original()[0].x + self.original()[2].x,
            r.y == self.original()[0].y + self.original()[2].y,
            r.den == 2,
    {
        let v = self.polygon.get_original_vertices();
        assert(small(v[0]) && small(v[2]));
        RationalPoint { x: v[0].x as i128 + v[2].x as i128, y: v[0].y as i128 + v[2].y as i128, den: 2 }
    }

    /// Whether the current pose contains `point`.
    pub fn contains(&self, point: Point2) -> (r: bool)
        ensures
            r == inside(self.current(), point),
    {
        self.polygon.contains(point)
    }

    /// The current pose's bounding box.
    pub fn bounding_box(&self) -> (r: BoundingBox)
        ensures
            r.wf(),
            r.taken() == 0,
            forall|p: Point2| in_box(r.min(), r.max(), p) <==> in_vertex_box(self.current(), p),
    {
        self.polygon.bounding_box()
    }

    /// The grid points that the current pose covers, in row-major order.
    pub fn points_filled(&self) -> (r: Vec<Point2>)
        ensures
            forall|p: Point2|
                r@.contains(p) <==> in_vertex_box(self.current(), p) && inside(self.current(), p),
            forall|i: int, j: int|
                0 <= i < j < r@.len() ==> row_major_before(#[trigger] r@[i], #[trigger] r@[j]),
    {
        self.polygon.points_filled()
    }

    /// The outline of the current pose.
    pub fn points_outline(&self) -> (r: Vec<Point2>)
        ensures
            r@ == outline(self.current()),
    {
        self.polygon.points_outline()
    }

    /// Replaces the current pose.
    pub fn set_current_vertices(&mut self, vertices: [Point2; 4])
        requires
            all_small(vertices@),
        ensures
            final(self).current() == vertices@,
            final(self).original() == old(self).original(),
    {
        self.polygon.set_current_vertices(vertices);
    }
}

} // verus!

verus! {

/// The shoelace centroid of an axis-aligned rectangle with positive area is
/// the midpoint of its corners.
pub proof fn lemma_rectangle_centroid(top_left: Point2, bottom_right: Point2)
    requires
        top_left.x < bottom_right.x,
        top_left.y < bottom_right.y,
    ensures
        ({
            let vs = seq![
                top_left,
                Point2 { x: bottom_right.x, y: top_left.y },
                bottom_right,
                Point2 { x: top_left.x, y: bottom_right.y },
            ];
            let (cx, cy, den) = centroid_of(vs);
            &&& double_area(vs) == 2 * (bottom_right.x - top_left.x) * (bottom_right.y
                - top_left.y)
            &&& den > 0
            &&& 2 * cx == (top_left.x + bottom_right.x) * den
            &&& 2 * cy == (top_left.y + bottom_right.y) * den
        }),
{
    let x0 = top_left.x as int;
    let y0 = top_left.y as int;
    let x1 = bottom_right.x as int;
    let y1 = bottom_right.y as int;
    let vs = seq![
        top_left,
        Point2 { x: bottom_right.x, y: top_left.y },
        bottom_right,
        Point2 { x: top_left.x, y: bottom_right.y },
    ];
    assert(vs.len() == 4);
    assert((0int + 1) % 4 == 1 && (1int + 1) % 4 == 2 && (2int + 1) % 4 == 3 && (3int + 1) % 4 == 0);
    assert(next_vertex(vs, 0) == vs[1]);
    assert(next_vertex(vs, 1) == vs[2]);
    assert(next_vertex(vs, 2) == vs[3]);
    assert(next_vertex(vs, 3) == vs[0]);
    reveal_with_fuel(shoelace, 5);
    reveal_with_fuel(moment_x, 5);
    reveal_with_fuel(moment_y, 5);
    let t0 = shoelace_term(vs, 0);
    let t1 = shoelace_term(vs, 1);
    let t2 = shoelace_term(vs, 2);
    let t3 = shoelace_term(vs, 3);
    assert(double_area(vs) == t0 + t1 + t2 + t3);
    assert(moment_x(vs, 4) == (x0 + x1) * t0 + (x1 + x1) * t1 + (x1 + x0) * t2 + (x0 + x0) * t3);
    assert(moment_y(vs, 4) == (y0 + y0) * t0 + (y0 + y1) * t1 + (y1 + y1) * t2 + (y1 + y0) * t3);
    assert(t0 == x0 * y0 - x1 * y0);
    assert(t1 == x1 * y1 - x1 * y0);
    assert(t2 == x1 * y1 - x0 * y1);
    assert(t3 == x0 * y0 - x0 * y1);
    let s = t0 + t1 + t2 + t3;
    assert(s == 2 * (x1 - x0) * (y1 - y0)) by (nonlinear_arith)
        requires
            t0 == x0 * y0 - x1 * y0,
            t1 == x1 * y1 - x1 * y0,
            t2 == x1 * y1 - x0 * y1,
            t3 == x0 * y0 - x0 * y1,
            s == t0 + t1 + t2 + t3,
    ;
    assert(s > 0) by (nonlinear_arith)
        requires
            s == 2 * (x1 - x0) * (y1 - y0),
            x0 < x1,
            y0 < y1,
    ;
    let mx = moment_x(vs, 4);
    let my = moment_y(vs, 4);
    assert(2 * mx == (x0 + x1) * (3 * s)) by (nonlinear_arith)
        requires
            mx == (x0 + x1) * t0 + (x1 + x1) * t1 + (x1 + x0) * t2 + (x0 + x0) * t3,
            t0 == x0 * y0 - x1 * y0,
            t1 == x1 * y1 - x1 * y0,
            t2 == x1 * y1 - x0 * y1,
            t3 == x0 * y0 - x0 * y1,
            s == t0 + t1 + t2 + t3,
    ;
    assert(2 * my == (y0 + y1) * (3 * s)) by (nonlinear_arith)
        requires
            my == (y0 + y0) * t0 + (y0 + y1) * t1 + (y1 + y1) * t2 + (y1 + y0) * t3,
            t0 == x0 * y0 - x1 * y0,
            t1 == x1 * y1 - x1 * y0,
            t2 == x1 * y1 - x0 * y1,
            t3 == x0 * y0 - x0 * y1,
            s == t0 + t1 + t2 + t3,
    ;
}

} // verus!
