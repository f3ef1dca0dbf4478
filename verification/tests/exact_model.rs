//! The exact wrap-around instantiation, and the light kind tags.

use iafa_ig_projet::bezier::curve::{BezierCurve, Lerp};
use iafa_ig_projet::exact::Point3;
use iafa_ig_projet::light::LightType;

#[test]
fn exact_lerp_keeps_the_endpoints() {
    let a = Point3::new(u64::MAX, 5, 0);
    let b = Point3::new(2, 1, u64::MAX - 7);
    assert_eq!(a.lerp(b, 0), a);
    assert_eq!(a.lerp(b, 1), b);
}

#[test]
fn exact_lerp_extrapolates_in_the_ring() {
    let a = Point3::new(0, 0, 0);
    let b = Point3::new(4, 1, 0);
    // a + 2 * (b - a)
    assert_eq!(a.lerp(b, 2), Point3::new(8, 2, 0));
}

#[test]
fn exact_two_point_curve_is_one_lerp() {
    let a = Point3::new(0, 0, 0);
    let b = Point3::new(4, 0, 0);
    let curve = BezierCurve::new(vec![a, b]);
    assert_eq!(curve.get_point(0), a);
    assert_eq!(curve.get_point(1), b);
    assert_eq!(curve.get_point(2), Point3::new(8, 0, 0));
}

#[test]
fn exact_quadratic_curve_at_a_whole_step() {
    let curve = BezierCurve::new(vec![
        Point3::new(0, 0, 0),
        Point3::new(4, 0, 0),
        Point3::new(4, 4, 0),
    ]);
    // At s = 2: one reduction gives (8, 0, 0) and (4, 8, 0); another gives
    // (0, 16, 0).
    assert_eq!(curve.get_point(2), Point3::new(0, 16, 0));
}

#[test]
fn exact_looping_curve_closes_at_the_seam() {
    let pts = vec![
        Point3::new(10, 0, 0),
        Point3::new(0, 10, 0),
        Point3::new(0, 0, 10),
    ];
    let first = pts[0];
    let curve = BezierCurve::new(pts).looping(true);
    assert_eq!(curve.get_point(0), first);
    assert_eq!(curve.get_point(1), first);
}

#[test]
fn exact_wrap_around_subtraction_inside_a_blend() {
    // b - a wraps: a + 1 * (b - a) must still land exactly on b.
    let a = Point3::new(5, 0, 0);
    let b = Point3::new(3, 0, 0);
    assert_eq!(a.lerp(b, 1), b);
}

#[test]
fn light_type_tags_round_trip() {
    for kind in [LightType::Point, LightType::Directional, LightType::Ambient] {
        assert_eq!(LightType::from_u32(kind.tag()), Some(kind));
    }
    assert_eq!(LightType::Point.tag(), 0);
    assert_eq!(LightType::Directional.tag(), 1);
    assert_eq!(LightType::Ambient.tag(), 2);
    assert_eq!(LightType::from_u32(3), None);
    assert_eq!(LightType::from_u32(u32::MAX), None);
}
