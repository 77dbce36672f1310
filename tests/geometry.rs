use oberon::linalg::bresenham::segment;
use oberon::linalg::{BoundingBox, Bresenham, Point2, Vec2};
use oberon::shapes::{ConvexPolygon, RationalPoint, Rectangle, Triangle};

fn p(x: usize, y: usize) -> Point2 {
    Point2::new(x, y)
}

#[test]
fn line_along_x_emits_points_after_start() {
    assert_eq!(segment(p(0, 0), p(3, 0)), vec![p(1, 0), p(2, 0), p(3, 0)]);
}

#[test]
fn line_has_chebyshev_length_and_ends_at_target() {
    let cases = [(p(2, 3), p(9, 5)), (p(9, 5), p(2, 3)), (p(4, 4), p(1, 12)), (p(0, 7), p(7, 0))];
    for (a, b) in cases {
        let pts = segment(a, b);
        let dx = (b.x as isize - a.x as isize).unsigned_abs();
        let dy = (b.y as isize - a.y as isize).unsigned_abs();
        assert_eq!(pts.len(), dx.max(dy));
        assert_eq!(*pts.last().unwrap(), b);
        let mut prev = a;
        for q in &pts {
            assert!((q.x as isize - prev.x as isize).abs() <= 1);
            assert!((q.y as isize - prev.y as isize).abs() <= 1);
            prev = *q;
        }
    }
}

#[test]
fn line_rounds_halves_down() {
    assert_eq!(segment(p(0, 0), p(4, 1)), vec![p(1, 0), p(2, 0), p(3, 1), p(4, 1)]);
    assert_eq!(segment(p(0, 0), p(2, 1)), vec![p(1, 0), p(2, 1)]);
}

#[test]
fn line_to_itself_is_empty() {
    let mut it = Bresenham::new(p(5, 5), p(5, 5));
    assert_eq!(it.next(), None);
    assert!(segment(p(5, 5), p(5, 5)).is_empty());
}

#[test]
fn bresenham_iterator_stops_after_end() {
    let mut it = Bresenham::new(p(1, 1), p(3, 3));
    assert_eq!(it.next(), Some(p(2, 2)));
    assert_eq!(it.next(), Some(p(3, 3)));
    assert_eq!(it.next(), None);
    assert_eq!(it.next(), None);
}

#[test]
fn bounding_box_walks_rows() {
    let mut it = BoundingBox::new(p(1, 1), p(2, 2));
    let mut got = Vec::new();
    while let Some(q) = it.next() {
        got.push(q);
    }
    assert_eq!(got, vec![p(1, 1), p(2, 1), p(1, 2), p(2, 2)]);
}

#[test]
fn point_addition_saturates() {
    assert_eq!(p(3, 3).add(Vec2::new(-5, 2)), p(0, 5));
    assert_eq!(p(usize::MAX - 1, 0).add(Vec2::new(5, 0)), p(usize::MAX, 0));
    assert_eq!(Point2::from_signed(-4, 7), p(0, 7));
    let mut q = p(1, 1);
    q.add_assign(Vec2::right());
    assert_eq!(q, p(2, 1));
}

#[test]
fn vector_arithmetic() {
    assert_eq!(Vec2::new(3, -4).add(Vec2::new(1, 1)), Vec2::new(4, -3));
    assert_eq!(Vec2::new(3, -4).add_scalar(2), Vec2::new(5, -2));
    assert_eq!(Vec2::new(10, 20).scalar_product(), 200);
    assert_eq!(Vec2::from_signed(7, 8), Vec2::new(7, 8));
}

#[test]
fn rectangle_area_and_center() {
    let rect = Rectangle::from_corner_and_size(p(10, 10), Vec2::new(10, 20));
    assert_eq!(rect.width(), 10);
    assert_eq!(rect.height(), 20);
    assert_eq!(rect.area(), 200);
    assert_eq!(rect.size(), Vec2::new(10, 20));
    assert_eq!(rect.center(), RationalPoint { x: 30, y: 40, den: 2 });
}

#[test]
fn polygon_centroid_of_rectangle_is_its_midpoint() {
    let rect = Rectangle::from_corners(p(10, 10), p(20, 30));
    let c = rect.polygon().center();
    assert_eq!(c.x, 15 * c.den);
    assert_eq!(c.y, 20 * c.den);
    assert_eq!(rect.polygon().double_area(), 400);
}

#[test]
fn polygon_area_sign_follows_winding() {
    let ccw = ConvexPolygon::from_vertices([p(0, 0), p(4, 0), p(0, 3)]);
    let cw = ConvexPolygon::from_vertices([p(0, 0), p(0, 3), p(4, 0)]);
    assert_eq!(ccw.double_area(), 12);
    assert_eq!(cw.double_area(), -12);
    let c = cw.center();
    assert!(c.den > 0);
    assert_eq!(c.x * 3, 4 * c.den);
    assert_eq!(c.y * 3, 3 * c.den);
}

#[test]
fn triangle_center_is_vertex_mean() {
    let t = Triangle::from_vertices([p(50, 5), p(40, 10), p(60, 15)]);
    assert_eq!(t.center(), RationalPoint { x: 150, y: 30, den: 3 });
    assert_eq!(t.double_area(), -150);
}

#[test]
fn contains_counts_border_as_inside() {
    let tri = Triangle::from_vertices([p(0, 0), p(4, 0), p(0, 4)]);
    assert!(tri.contains(p(1, 1)));
    assert!(tri.contains(p(2, 2)));
    assert!(tri.contains(p(0, 4)));
    assert!(!tri.contains(p(3, 3)));
    assert!(!tri.contains(p(100, 100)));
}

#[test]
fn filled_triangle_in_row_major_order() {
    let tri = Triangle::from_vertices([p(0, 0), p(2, 0), p(0, 2)]);
    assert_eq!(
        tri.points_filled(),
        vec![p(0, 0), p(1, 0), p(2, 0), p(0, 1), p(1, 1), p(0, 2)]
    );
}

#[test]
fn outline_concatenates_edges() {
    let rect = Rectangle::from_corners(p(0, 0), p(2, 1));
    assert_eq!(
        rect.points_outline(),
        vec![p(1, 0), p(2, 0), p(2, 1), p(1, 1), p(0, 1), p(0, 0)]
    );
}

#[test]
fn moved_pose_keeps_reference_pose() {
    let mut tri = Triangle::from_vertices([p(0, 0), p(2, 0), p(0, 2)]);
    tri.set_current_vertices([p(5, 5), p(7, 5), p(5, 7)]);
    assert!(tri.contains(p(6, 6)));
    assert!(!tri.contains(p(1, 1)));
    assert_eq!(tri.center(), RationalPoint { x: 2, y: 2, den: 3 });
    assert_eq!(tri.polygon().get_original_vertices(), &[p(0, 0), p(2, 0), p(0, 2)]);
    let bb = tri.bounding_box();
    let mut it = bb;
    assert_eq!(it.next(), Some(p(5, 5)));
}

#[test]
fn outline_edge_of_three_units_has_three_points() {
    let tri = Triangle::from_vertices([p(0, 0), p(3, 0), p(0, 3)]);
    let outline = tri.points_outline();
    assert_eq!(&outline[..3], &[p(1, 0), p(2, 0), p(3, 0)]);
    assert_eq!(outline.len(), 9);
    assert_eq!(*outline.last().unwrap(), p(0, 0));
}
