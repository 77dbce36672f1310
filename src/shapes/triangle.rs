use vstd::prelude::*;

use crate::linalg::bounding_box::{in_box, BoundingBox};
use crate::linalg::point2::Point2;
use crate::shapes::polygon::{
    all_small, double_area, inside, in_vertex_box, outline, row_major_before, small,
    ConvexPolygon, RationalPoint,
};

verus! {

/// A three-vertex polygon.
#[derive(Clone, Copy, Debug)]
pub struct Triangle {
    polygon: ConvexPolygon<3>,
}

impl Triangle {
    /// The reference pose.
    pub closed spec fn original(&self) -> Seq<Point2> {
        self.polygon.original()
    }

    /// The current pose.
    pub closed spec fn current(&self) -> Seq<Point2> {
        self.polygon.current()
    }

    /// The triangle whose reference pose is `vertices`.
    pub fn from_vertices(vertices: [Point2; 3]) -> (r: Triangle)
        requires
            all_small(vertices@),
        ensures
            r.original() == vertices@,
            r.current() == vertices@,
    {
        Triangle { polygon: ConvexPolygon::from_vertices(vertices) }
    }

    /// The underlying polygon.
    pub fn polygon(&self) -> (r: &ConvexPolygon<3>)
        ensures
            r.original() == self.original(),
            r.current() == self.current(),
    {
        &self.polygon
    }

    /// Twice the signed area of the reference pose.
    pub fn double_area(&self) -> (r: i128)
        ensures
            r == double_area(self.original()),
    {
        self.polygon.double_area()
    }

    /// The centroid of the reference pose: the mean of its vertices.
    pub fn center(&self) -> (r: RationalPoint)
        ensures
            r.x == self.original()[0].x + self.original()[1].x + self.original()[2].x,
            r.y == self.original()[0].y + self.original()[1].y + self.original()[2].y,
            r.den == 3,
    {
        let v = self.polygon.get_original_vertices();
        assert(small(v[0]) && small(v[1]) && small(v[2]));
        RationalPoint {
            x: v[0].x as i128 + v[1].x as i128 + v[2].x as i128,
            y: v[0].y as i128 + v[1].y as i128 + v[2].y as i128,
            den: 3,
        }
    }

    /// Whether the current pose contains `point`.
    pub fn contains(&self, point: Point2) -> (r: bool)
        ensures
            r == inside(self.current(), point),
    {
        self.polygon.contains(point)
    }

    /// The current pose's bounding box.
    pub fn bounding_box(&self) -> (r: BoundingBox)
        ensures
            r.wf(),
            r.taken() == 0,
            forall|p: Point2| in_box(r.min(), r.max(), p) <==> in_vertex_box(self.current(), p),
    {
        self.polygon.bounding_box()
    }

    /// The grid points that the current pose covers, in row-major order.
    pub fn points_filled(&self) -> (r: Vec<Point2>)
        ensures
            forall|p: Point2|
                r@.contains(p) <==> in_vertex_box(self.current(), p) && inside(self.current(), p),
            forall|i: int, j: int|
                0 <= i < j < r@.len() ==> row_major_before(#[trigger] r@[i], #[trigger] r@[j]),
    {
        self.polygon.points_filled()
    }

    /// The outline of the current pose.
    pub fn points_outline(&self) -> (r: Vec<Point2>)
        ensures
            r@ == outline(self.current()),
    {
        self.polygon.points_outline()
    }

    /// Replaces the current pose.
    pub fn set_current_vertices(&mut self, vertices: [Point2; 3])
        requires
            all_small(vertices@),
        ensures
            final(self).current() == vertices@,
            final(self).original() == old(self).original(),
    {
        self.polygon.set_current_vertices(vertices);
    }
}

} // verus!
