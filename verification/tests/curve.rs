//! Curve evaluation over floating-point 2-D vectors.

use glam::{vec2, Vec2};
use iafa_ig_projet::bezier::curve::{BezierCurve, Lerp};

/// A 2-D float control point: a glam vector given the crate's lerp capability.
#[derive(Debug, Clone, Copy, PartialEq)]
struct P2(Vec2);

impl Lerp<f32> for P2 {
    // Outside the verifier, the specification members of the trait are inert;
    // they are given the bodies they describe.
    fn lerp_spec(self, other: Self, s: f32) -> Self {
        self.lerp(other, s)
    }

    fn is_zero(s: f32) -> bool {
        s == 0.0
    }

    fn is_one(s: f32) -> bool {
        s == 1.0
    }

    fn lerp_zero(_a: Self, _b: Self, _s: f32) {}

    fn lerp_one(_a: Self, _b: Self, _s: f32) {}

    fn lerp(self, other: Self, s: f32) -> Self {
        P2(self.0.lerp(other.0, s))
    }
}

#[test]
fn simple_curve() {
    let curve = BezierCurve::new(vec![P2(Vec2::ZERO), P2(Vec2::X)]);
    assert_eq!(curve.get_point(0.), P2(Vec2::ZERO));
    assert_eq!(curve.get_point(1.), P2(Vec2::X));
    assert_eq!(curve.get_point(0.5), P2(vec2(0.5, 0.0)));
}

#[test]
fn single_point_returns_it_for_any_parameter() {
    let p = P2(vec2(3.5, -2.25));
    let curve = BezierCurve::new(vec![p]);
    for s in [-1.0f32, 0.0, 0.25, 0.5, 1.0, 7.5] {
        assert_eq!(curve.get_point(s), p);
    }
    let looped = BezierCurve::new(vec![p]).looping(true);
    assert_eq!(looped.get_point(0.5), p);
}

#[test]
fn two_points_blend_linearly() {
    let p0 = P2(vec2(-1.0, 2.0));
    let p1 = P2(vec2(3.0, -6.0));
    let curve = BezierCurve::new(vec![p0, p1]);
    assert_eq!(curve.get_point(0.), p0);
    assert_eq!(curve.get_point(1.), p1);
    assert_eq!(curve.get_point(0.5), p0.lerp(p1, 0.5));
    assert_eq!(curve.get_point(0.5), P2(vec2(1.0, -2.0)));
}

#[test]
fn two_points_extrapolate_outside_the_unit_interval() {
    let curve = BezierCurve::new(vec![P2(Vec2::ZERO), P2(Vec2::X)]);
    assert_eq!(curve.get_point(2.0), P2(vec2(2.0, 0.0)));
    assert_eq!(curve.get_point(-1.0), P2(vec2(-1.0, 0.0)));
}

#[test]
fn quadratic_curve_matches_de_casteljau_by_hand() {
    let curve = BezierCurve::new(vec![
        P2(vec2(0.0, 0.0)),
        P2(vec2(1.0, 0.0)),
        P2(vec2(1.0, 1.0)),
    ]);
    // One reduction at 0.5: (0.5, 0) and (1, 0.5); a second: (0.75, 0.25).
    assert_eq!(curve.get_point(0.5), P2(vec2(0.75, 0.25)));
}

#[test]
fn set_point_shows_in_the_next_evaluation() {
    let mut curve = BezierCurve::new(vec![P2(Vec2::ZERO), P2(Vec2::X)]);
    assert_eq!(curve.get_point(0.5), P2(vec2(0.5, 0.0)));
    curve.set_point(1, P2(vec2(0.0, 1.0)));
    assert_eq!(curve.get_point(0.5), P2(vec2(0.0, 0.5)));
    assert_eq!(*curve.point(1), P2(vec2(0.0, 1.0)));
    assert_eq!(curve.len(), 2);
}

#[test]
fn looping_curve_closes_at_the_seam() {
    let pts = [P2(vec2(0.0, 0.0)), P2(vec2(1.0, 0.0)), P2(vec2(0.0, 1.0))];
    let curve = BezierCurve::new(pts.to_vec()).looping(true);
    assert_eq!(curve.get_point(0.0), pts[0]);
    assert_eq!(curve.get_point(1.0), pts[0]);
}

#[test]
fn looping_seam_follows_the_relabelled_start() {
    let pts = [P2(vec2(0.0, 0.0)), P2(vec2(1.0, 0.0)), P2(vec2(0.0, 1.0))];
    for k in 0..3 {
        let rotated: Vec<P2> = (0..3).map(|i| pts[(i + k) % 3]).collect();
        let curve = BezierCurve::new(rotated).looping(true);
        assert_eq!(curve.get_point(0.0), pts[k]);
        assert_eq!(curve.get_point(1.0), pts[k]);
    }
}

#[test]
fn open_curve_ends_at_its_last_point() {
    let pts = vec![
        P2(vec2(1.0, -1.0)),
        P2(vec2(0.5, 0.0)),
        P2(vec2(0.0, 1.5)),
        P2(vec2(-0.5, 2.0)),
        P2(vec2(-1.0, 0.5)),
    ];
    let first = pts[0];
    let last = pts[4];
    let curve = BezierCurve::new(pts);
    assert_eq!(curve.get_point(0.0), first);
    assert_eq!(curve.get_point(1.0), last);
}
