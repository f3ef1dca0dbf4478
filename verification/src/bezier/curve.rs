//! Bezier curve evaluation by de Casteljau's algorithm, generic over any
//! control-point type that supports linear interpolation.

use vstd::prelude::*;
use vstd::pervasive::VecAdditionalExecFns;

verus! {

/// The capability a control point must offer: blending towards another value
/// of the same type under a scalar factor of type `F`.
///
/// The intended reading is `a.lerp(b, s) == a + s * (b - a)` in whatever
/// arithmetic the implementing type uses; the curve evaluator itself only
/// relies on the two endpoint identities stated as proof obligations below.
/// An implementation also decides, through `is_zero` and `is_one`, which
/// blend factors play the role of `0` and `1` in its scalar domain.
pub trait Lerp<F: Copy>: Sized + Copy {
    /// The value `lerp` returns, as a specification-level function.
    spec fn lerp_spec(self, other: Self, s: F) -> Self;

    /// Whether `s` is the zero of the blend-factor domain.
    spec fn is_zero(s: F) -> bool;

    /// Whether `s` is the unit of the blend-factor domain.
    spec fn is_one(s: F) -> bool;

    /// Blending by a zero factor returns the starting value unchanged.
    proof fn lerp_zero(a: Self, b: Self, s: F)
        requires
            Self::is_zero(s),
        ensures
            a.lerp_spec(b, s) == a,
    ;

    /// Blending by a unit factor lands exactly on the target value.
    proof fn lerp_one(a: Self, b: Self, s: F)
        requires
            Self::is_one(s),
        ensures
            a.lerp_spec(b, s) == b,
    ;

    /// Linear interpolation from `self` towards `other` by the factor `s`.
    fn lerp(self, other: Self, s: F) -> (r: Self)
        ensures
            r == self.lerp_spec(other, s),
    ;
}

/// One de Casteljau reduction of an open control polygon: each adjacent pair
/// is blended at `s`, shortening the polygon by one point.
pub open spec fn reduced<F: Copy, V: Lerp<F>>(points: Seq<V>, s: F) -> Seq<V> {
    Seq::new((points.len() - 1) as nat, |i: int| points[i].lerp_spec(points[i + 1], s))
}

/// The point reached by repeated de Casteljau reduction of an open control
/// polygon, down to a single point.
pub open spec fn de_casteljau<F: Copy, V: Lerp<F>>(points: Seq<V>, s: F) -> V
    decreases points.len(),
{
    if points.len() <= 1 {
        points[0]
    } else {
        de_casteljau(reduced(points, s), s)
    }
}

/// What evaluating a curve at `s` returns. A looping curve closes its control
/// polygon first: the reduction gains the wrap-around segment from the last
/// control point back to the first, which is the same as running the open
/// algorithm on the polygon with its first point appended again. An open
/// curve reduces its consecutive pairs only.
pub open spec fn curve_point<F: Copy, V: Lerp<F>>(points: Seq<V>, s: F, looping: bool) -> V {
    if looping && points.len() >= 2 {
        de_casteljau(points.push(points[0]), s)
    } else {
        de_casteljau(points, s)
    }
}

/// An ordered control polygon together with a flag that, when set, treats the
/// polygon as cyclic and closes the evaluated curve into a loop.
#[derive(Debug, Clone)]
pub struct BezierCurve<V> {
    points: Vec<V>,
    looping: bool,
}

impl<V> View for BezierCurve<V> {
    type V = Seq<V>;

    closed spec fn view(&self) -> Seq<V> {
        self.points@
    }
}

impl<V> BezierCurve<V> {
    /// Whether the control polygon is treated as cyclic.
    pub closed spec fn is_looping(&self) -> bool {
        self.looping
    }

    /// A new, open curve over the given control points.
    pub fn new(points: Vec<V>) -> (r: Self)
        ensures
            r@ == points@,
            !r.is_looping(),
    {
        BezierCurve { points, looping: false }
    }

    /// The same curve with the looping flag replaced.
    pub fn looping(self, v: bool) -> (r: Self)
        ensures
            r@ == self@,
            r.is_looping() == v,
    {
        BezierCurve { looping: v, ..self }
    }

    /// The number of control points.
    pub fn len(&self) -> (r: usize)
        ensures
            r == self@.len(),
    {
        self.points.len()
    }

    /// The control point at index `i`.
    pub fn point(&self, i: usize) -> (r: &V)
        requires
            i < self@.len(),
        ensures
            *r == self@[i as int],
    {
        &self.points[i]
    }

    /// Replaces the control point at index `i`; the next evaluation reflects
    /// the new point immediately.
    pub fn set_point(&mut self, i: usize, p: V)
        requires
            i < old(self)@.len(),
        ensures
            final(self)@ == old(self)@.update(i as int, p),
            final(self).is_looping() == old(self).is_looping(),
    {
        self.points.set(i, p);
    }

    /// The point of the curve at parameter `s`.
    ///
    /// The control polygon is reduced pair by pair, in place in a scratch
    /// buffer, until a single point remains; a looping curve first gains the
    /// wrap-around segment that closes the polygon. Values of `s` outside the
    /// unit interval extrapolate linearly.
    pub fn get_point<F: Copy>(&self, s: F) -> (r: V) where V: Lerp<F>
        requires
            self@.len() >= 1,
        ensures
            r == curve_point(self@, s, self.is_looping()),
    {
        let n = self.points.len();
        let mut work: Vec<V> = Vec::new();
        let mut i: usize = 0;
        while i < n
            invariant
                i <= n,
                n == self.points@.len(),
                work@ == self.points@.take(i as int),
            decreases n - i,
        {
            work.push(self.points[i]);
            assert(work@ =~= self.points@.take(i + 1));
            i = i + 1;
        }
        assert(work@ =~= self.points@);
        if self.looping && n >= 2 {
            work.push(self.points[0]);
        }
        while work.len() > 1
            invariant
                work@.len() >= 1,
                de_casteljau(work@, s) == curve_point(self@, s, self.is_looping()),
            decreases work@.len(),
        {
            let ghost level = work@;
            let m = work.len();
            let mut j: usize = 0;
            while j < m - 1
                invariant
                    2 <= m == level.len(),
                    j <= m - 1,
                    work@.len() == m,
                    forall|k: int| 0 <= k < j ==> work@[k] == reduced(level, s)[k],
                    forall|k: int| j <= k < m ==> work@[k] == level[k],
                decreases m - 1 - j,
            {
                let a = work[j];
                let b = work[j + 1];
                work.set(j, a.lerp(b, s));
                j = j + 1;
            }
            work.truncate(m - 1);
            proof {
                assert(work@ =~= reduced(level, s));
            }
        }
        work[0]
    }
}

/// Evaluating a curve with a single control point returns that point
/// unchanged, for every blend factor and either looping state.
pub proof fn lemma_single_control_point<F: Copy, V: Lerp<F>>(points: Seq<V>, s: F, looping: bool)
    requires
        points.len() == 1,
    ensures
        curve_point(points, s, looping) == points[0],
{
}

/// At a zero blend factor each reduction keeps the first point, so the open
/// algorithm returns the first control point.
pub proof fn lemma_eval_at_zero<F: Copy, V: Lerp<F>>(points: Seq<V>, s: F)
    requires
        points.len() >= 1,
        V::is_zero(s),
    ensures
        de_casteljau(points, s) == points[0],
    decreases points.len(),
{
    if points.len() >= 2 {
        let r = reduced(points, s);
        V::lerp_zero(points[0], points[1], s);
        assert(r[0] == points[0]);
        lemma_eval_at_zero(r, s);
    }
}

/// At a unit blend factor each reduction keeps the last point, so the open
/// algorithm returns the last control point.
pub proof fn lemma_eval_at_one<F: Copy, V: Lerp<F>>(points: Seq<V>, s: F)
    requires
        points.len() >= 1,
        V::is_one(s),
    ensures
        de_casteljau(points, s) == points.last(),
    decreases points.len(),
{
    if points.len() >= 2 {
        let r = reduced(points, s);
        V::lerp_one(points[points.len() - 2], points[points.len() - 1], s);
        assert(r.last() == points.last());
        lemma_eval_at_one(r, s);
    }
}

/// An open curve starts at its first control point and ends at its last one.
pub proof fn lemma_open_endpoints<F: Copy, V: Lerp<F>>(points: Seq<V>, s0: F, s1: F)
    requires
        points.len() >= 1,
        V::is_zero(s0),
        V::is_one(s1),
    ensures
        curve_point(points, s0, false) == points[0],
        curve_point(points, s1, false) == points.last(),
{
    lemma_eval_at_zero(points, s0);
    lemma_eval_at_one(points, s1);
}

/// A looping curve closes: at both ends of the parameter range it sits on its
/// first control point, so the two ends of the evaluated loop meet.
pub proof fn lemma_loop_seam<F: Copy, V: Lerp<F>>(points: Seq<V>, s0: F, s1: F)
    requires
        points.len() >= 1,
        V::is_zero(s0),
        V::is_one(s1),
    ensures
        curve_point(points, s0, true) == points[0],
        curve_point(points, s1, true) == points[0],
{
    if points.len() >= 2 {
        let closed = points.push(points[0]);
        lemma_eval_at_zero(closed, s0);
        lemma_eval_at_one(closed, s1);
        assert(closed.last() == points[0]);
    }
}

/// A two-point curve is a single linear interpolation between its endpoints,
/// for every blend factor.
pub proof fn lemma_two_point_curve<F: Copy, V: Lerp<F>>(p0: V, p1: V, s: F)
    ensures
        curve_point(seq![p0, p1], s, false) == p0.lerp_spec(p1, s),
{
    let pts = seq![p0, p1];
    let r = reduced(pts, s);
    assert(r =~= seq![p0.lerp_spec(p1, s)]);
    assert(de_casteljau(pts, s) == de_casteljau(r, s));
    assert(de_casteljau(r, s) == r[0]);
}

/// The control polygon rotated so that index `k` becomes the new start.
pub open spec fn rotated<V>(points: Seq<V>, k: int) -> Seq<V> {
    points.subrange(k, points.len() as int) + points.subrange(0, k)
}

/// Relabeling a looping curve's starting control point moves the seam with
/// it: from every starting index, the closed curve begins and ends at the
/// control point now labelled first, so closure at the seam is invariant
/// under rotating the control polygon. (The evaluated shape away from the
/// seam is not invariant under this reduction scheme.)
pub proof fn lemma_loop_relabel_seam<F: Copy, V: Lerp<F>>(points: Seq<V>, k: int, s0: F, s1: F)
    requires
        points.len() >= 1,
        0 <= k < points.len(),
        V::is_zero(s0),
        V::is_one(s1),
    ensures
        curve_point(rotated(points, k), s0, true) == points[k],
        curve_point(rotated(points, k), s1, true) == points[k],
{
    let rot = rotated(points, k);
    assert(rot[0] == points[k]);
    lemma_loop_seam(rot, s0, s1);
}

} // verus!
