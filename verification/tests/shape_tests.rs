use physics::polygon::{crosses, is_inside};
use physics::scalar::Scalar;
use physics::shape::{Circle, ObjectShape, Rect, Shape, CIRCLE_RESOLUTION};
use physics::vector::NVec2;

fn v(x: i64, y: i64) -> NVec2 {
    NVec2::new(Scalar::from_raw(x), Scalar::from_raw(y))
}

fn vi(x: i64, y: i64) -> NVec2 {
    NVec2::new(Scalar::from_int(x), Scalar::from_int(y))
}

#[test]
fn default_shape_is_a_circle_of_radius_ten() {
    assert_eq!(ObjectShape::default(), ObjectShape::circle(Scalar::from_int(10)));
    assert_eq!(Circle::default().radius, Scalar::from_int(10));
}

#[test]
fn rect_points_are_the_four_corners() {
    let rect = Rect { width: Scalar::from_int(4), height: Scalar::from_int(2) };
    assert_eq!(rect.get_points(), vec![vi(-2, -1), vi(2, -1), vi(2, 1), vi(-2, 1)]);
    let shape = ObjectShape::rect(Scalar::from_int(4), Scalar::from_int(2));
    assert_eq!(shape.get_points(), vec![vi(-2, -1), vi(2, -1), vi(2, 1), vi(-2, 1)]);
}

#[test]
fn circle_points_are_fifty_turns_of_the_first() {
    let points = Circle { radius: Scalar::from_int(10) }.get_points();
    assert_eq!(points.len(), CIRCLE_RESOLUTION);
    assert_eq!(points.len(), 50);
    assert_eq!(points[0], vi(10, 0));
    assert_eq!(points[1], v(9_921_147_013_140, 1_253_332_335_640));
    assert_eq!(points[25], v(-9_999_999_999_853, 75));
    assert_eq!(points[49], v(9_921_147_012_842, -1_253_332_335_751));
}

#[test]
fn circle_points_lie_on_the_circle() {
    let points = ObjectShape::circle(Scalar::from_int(10)).get_points();
    for (k, p) in points.iter().enumerate() {
        let angle = std::f64::consts::TAU * (k as f64) / 50.0;
        let x = p.x.raw() as f64 / 1e12;
        let y = p.y.raw() as f64 / 1e12;
        assert!((x - 10.0 * angle.cos()).abs() < 1e-9);
        assert!((y - 10.0 * angle.sin()).abs() < 1e-9);
    }
}

#[test]
fn outline_is_the_polygon_moved_to_the_centre() {
    let shape = ObjectShape::rect(Scalar::from_int(4), Scalar::from_int(2));
    assert_eq!(shape.outline_at(vi(10, 20)), vec![vi(8, 19), vi(12, 19), vi(12, 21), vi(8, 21)]);
    let circle = ObjectShape::circle(Scalar::from_int(1));
    let outline = circle.outline_at(vi(3, 0));
    assert_eq!(outline.len(), 50);
    assert_eq!(outline[0], vi(4, 0));
}

#[test]
fn ray_crosses_an_edge_to_its_right_only() {
    // the edge from (2,-1) to (2,1)
    assert!(crosses(vi(0, 0), vi(2, -1), vi(2, 1)));
    assert!(!crosses(vi(3, 0), vi(2, -1), vi(2, 1)));
    // above and below the edge
    assert!(!crosses(vi(0, 5), vi(2, -1), vi(2, 1)));
    assert!(!crosses(vi(0, -5), vi(2, -1), vi(2, 1)));
    // a level edge is never crossed
    assert!(!crosses(vi(0, 0), vi(-2, 0), vi(2, 0)));
    // a slanted edge from (0,0) to (4,4): at height 1 it is at x = 1
    assert!(crosses(v(500_000_000_000, 1_000_000_000_000), vi(0, 0), vi(4, 4)));
    assert!(!crosses(v(1_500_000_000_000, 1_000_000_000_000), vi(0, 0), vi(4, 4)));
}

#[test]
fn point_in_box() {
    let outline = ObjectShape::rect(Scalar::from_int(4), Scalar::from_int(2)).outline_at(vi(0, 0));
    assert!(is_inside(vi(0, 0), &outline));
    assert!(is_inside(v(1_900_000_000_000, 900_000_000_000), &outline));
    assert!(!is_inside(vi(3, 0), &outline));
    assert!(!is_inside(vi(-3, 0), &outline));
    assert!(!is_inside(vi(0, 2), &outline));
    assert!(!is_inside(vi(0, -2), &outline));
}

#[test]
fn point_in_circle_outline() {
    let outline = ObjectShape::circle(Scalar::from_int(10)).outline_at(vi(100, 100));
    assert!(is_inside(vi(100, 100), &outline));
    assert!(is_inside(vi(105, 95), &outline));
    assert!(!is_inside(vi(100, 111), &outline));
    assert!(!is_inside(vi(89, 100), &outline));
    assert!(!is_inside(vi(111, 100), &outline));
    assert!(!is_inside(vi(0, 0), &outline));
}

#[test]
fn the_polygon_is_closed_from_the_last_vertex_to_the_first() {
    // the four corners of a square: the edge from the last corner back to
    // the first bounds it on the left
    let square = vec![vi(-1, -1), vi(1, -1), vi(1, 1), vi(-1, 1)];
    assert!(is_inside(vi(0, 0), &square));
    assert!(!is_inside(vi(-2, 0), &square));
    assert!(!is_inside(vi(2, 0), &square));
    assert!(!is_inside(vi(0, 2), &square));
    assert!(!is_inside(vi(0, -2), &square));
    let corners = ObjectShape::rect(Scalar::from_int(4), Scalar::from_int(2)).get_points();
    assert!(is_inside(vi(0, 0), &corners));
    assert!(!is_inside(vi(-30, 0), &corners));
    assert!(!is_inside(vi(3, 0), &corners));
    // a first vertex that is repeated at the end changes nothing
    let mut repeated = square.clone();
    repeated.push(vi(-1, -1));
    assert!(is_inside(vi(0, 0), &repeated));
    assert!(!is_inside(vi(-2, 0), &repeated));
    // a triangle
    let triangle = vec![vi(0, 0), vi(4, 0), vi(0, 4)];
    assert!(is_inside(vi(1, 1), &triangle));
    assert!(!is_inside(vi(3, 3), &triangle));
    assert!(!is_inside(vi(-1, 1), &triangle));
}

#[test]
fn polygons_without_area_enclose_nothing() {
    assert!(!is_inside(vi(0, 0), &vec![]));
    assert!(!is_inside(vi(0, 0), &vec![vi(0, 0)]));
    assert!(!is_inside(vi(0, 0), &vec![vi(-1, -1), vi(1, 1)]));
    assert!(!is_inside(vi(-5, 0), &vec![vi(-1, -1), vi(1, 1)]));
}
