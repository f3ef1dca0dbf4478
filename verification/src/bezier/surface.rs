//! Bezier surfaces as a curve of curves: a profile of Bezier curves is
//! evaluated pointwise, and the derived points serve as the control polygon
//! of a second, transient curve evaluation.

use vstd::prelude::*;
use vstd::arithmetic::div_mod::lemma_fundamental_div_mod_converse;
use crate::bezier::curve::{
    curve_point, lemma_open_endpoints, lemma_single_control_point, BezierCurve, Lerp,
};
use crate::mesh::{Mesh, Uv, Vertex};

verus! {

/// Why turning a surface into a mesh can fail.
#[derive(Debug, Clone, Copy, PartialEq, Eq, Structural)]
pub enum SurfaceError {
    /// Fewer than two segments were asked for in one of the grid axes; the
    /// grid would be empty or degenerate.
    InvalidGridSize,
    /// The mesh-construction collaborator rejected the buffers. The library
    /// itself never produces this; it is the error a caller maps a rejected
    /// upload to.
    MeshConstructionFailed,
}

/// The scalar capabilities the surface layer needs from a blend-factor type:
/// building parameter values as integer ratios, stepping a parameter by a
/// finite difference, and a default step size.
pub trait Scalar: Sized + Copy {
    /// The value `from_ratio` returns, as a specification-level function.
    spec fn ratio_spec(num: usize, den: usize) -> Self;

    /// The scalar `num / den`, used to sample a parameter grid.
    fn from_ratio(num: usize, den: usize) -> (r: Self)
        requires
            0 < den,
        ensures
            r == Self::ratio_spec(num, den),
    ;

    /// The value `plus` returns, as a specification-level function.
    spec fn plus_spec(self, other: Self) -> Self;

    /// The sum of two scalars, used to step a parameter by `dt`.
    fn plus(self, other: Self) -> (r: Self)
        ensures
            r == self.plus_spec(other),
    ;

    /// The value `default_step` returns, as a specification-level function.
    spec fn default_step_spec() -> Self;

    /// The finite-difference step a surface starts out with.
    fn default_step() -> (r: Self)
        ensures
            r == Self::default_step_spec(),
    ;
}

/// The vector capabilities the surface layer needs from a control-point type
/// beyond interpolation: difference quotients for finite differences, vector
/// sums, and normalization of the derived normal.
pub trait SurfaceVector<F: Copy>: Lerp<F> {
    /// The value `diff_scale` returns, as a specification-level function.
    spec fn diff_scale_spec(self, anchor: Self, dt: F) -> Self;

    /// The difference `self - anchor` scaled by `1 / dt`: one finite
    /// difference quotient.
    fn diff_scale(self, anchor: Self, dt: F) -> (r: Self)
        ensures
            r == self.diff_scale_spec(anchor, dt),
    ;

    /// The value `plus` returns, as a specification-level function.
    spec fn add_spec(self, other: Self) -> Self;

    /// The vector sum `self + other`.
    fn plus(self, other: Self) -> (r: Self)
        ensures
            r == self.add_spec(other),
    ;

    /// The value `normalized` returns, as a specification-level function.
    spec fn normalized_spec(self) -> Self;

    /// The vector rescaled to unit length, in whatever norm the type offers.
    fn normalized(self) -> (r: Self)
        ensures
            r == self.normalized_spec(),
    ;
}

/// The derived control polygon of a surface at `u`: each profile curve
/// evaluated at `u`, in profile order.
pub open spec fn derived_points<F: Copy, V: Lerp<F>>(
    profile: Seq<BezierCurve<V>>,
    u: F,
) -> Seq<V> {
    Seq::new(profile.len(), |i: int| curve_point(profile[i]@, u, profile[i].is_looping()))
}

/// The surface point at `(u, v)`: the derived control polygon at `u`,
/// blended at `v` by a second curve evaluation that follows the surface's
/// own looping flag.
pub open spec fn surface_at<F: Copy, V: Lerp<F>>(
    profile: Seq<BezierCurve<V>>,
    looping: bool,
    u: F,
    v: F,
) -> V {
    curve_point(derived_points(profile, u), v, looping)
}

/// The combined finite-difference gradient at `(u, v)`: forward differences
/// in `u` and in `v`, each scaled by the reciprocal step, summed into one
/// vector. The two partial derivatives are deliberately not kept apart.
pub open spec fn surface_gradient<F: Scalar, V: SurfaceVector<F>>(
    profile: Seq<BezierCurve<V>>,
    looping: bool,
    dt: F,
    u: F,
    v: F,
) -> V {
    let anchor = surface_at(profile, looping, u, v);
    let du = surface_at(profile, looping, u.plus_spec(dt), v).diff_scale_spec(anchor, dt);
    let dv = surface_at(profile, looping, u, v.plus_spec(dt)).diff_scale_spec(anchor, dt);
    du.add_spec(dv)
}

/// The second-order finite-difference vector at `(u, v)`: the same forward
/// difference step applied to the gradient itself. An approximation of the
/// surface's curvature, for callers that want a smoother normal estimate.
pub open spec fn surface_second_gradient<F: Scalar, V: SurfaceVector<F>>(
    profile: Seq<BezierCurve<V>>,
    looping: bool,
    dt: F,
    u: F,
    v: F,
) -> V {
    let anchor = surface_gradient(profile, looping, dt, u, v);
    let du = surface_gradient(profile, looping, dt, u.plus_spec(dt), v).diff_scale_spec(
        anchor,
        dt,
    );
    let dv = surface_gradient(profile, looping, dt, u, v.plus_spec(dt)).diff_scale_spec(
        anchor,
        dt,
    );
    du.add_spec(dv)
}

/// The vertex a triangulation stores for grid sample `(i, j)` of a
/// `useg x vseg` grid: both axes are sampled at the parameter values
/// `1/seg, 2/seg, .., seg/seg`, and the vertex carries the surface point,
/// the normalized gradient and the parameter pair itself.
pub open spec fn grid_vertex<F: Scalar, V: SurfaceVector<F>>(
    profile: Seq<BezierCurve<V>>,
    looping: bool,
    dt: F,
    i: int,
    j: int,
    useg: int,
    vseg: int,
) -> Vertex<V, F> {
    let fu = F::ratio_spec((i + 1) as usize, useg as usize);
    let fv = F::ratio_spec((j + 1) as usize, vseg as usize);
    Vertex {
        position: surface_at(profile, looping, fu, fv),
        normal: surface_gradient(profile, looping, dt, fu, fv).normalized_spec(),
        uv: Uv { u: fu, v: fv },
    }
}

/// The six indices stored for grid cell `c` of a grid with `useg` vertices
/// per row: the cell's top-left corner `idx` is joined with its right and
/// lower neighbours into two triangles in a fixed winding, matching the
/// row-major vertex layout.
pub open spec fn cell_corners_ok(indices: Seq<u32>, c: int, useg: int) -> bool {
    let i = c % (useg - 1);
    let j = c / (useg - 1);
    let idx = j * useg + i;
    &&& indices[6 * c] as int == idx
    &&& indices[6 * c + 1] as int == idx + 1
    &&& indices[6 * c + 2] as int == idx + useg
    &&& indices[6 * c + 3] as int == idx + 1
    &&& indices[6 * c + 4] as int == idx + useg + 1
    &&& indices[6 * c + 5] as int == idx + useg
}

/// A bilinearly-blended Bezier surface: an ordered profile of curves blended
/// across by a second curve evaluation, a finite-difference step size for
/// normals, and a looping flag for the across-profiles direction.
pub struct BezierSurface<V, F> {
    profile: Vec<BezierCurve<V>>,
    dtprec: F,
    looping: bool,
}

impl<V, F> BezierSurface<V, F> {
    /// The profile curves, in order.
    pub closed spec fn profile_view(&self) -> Seq<BezierCurve<V>> {
        self.profile@
    }

    /// Whether the across-profiles blend treats the profile as cyclic.
    pub closed spec fn is_looping(&self) -> bool {
        self.looping
    }

    /// The finite-difference step used by `gradient`.
    pub closed spec fn precision(&self) -> F {
        self.dtprec
    }

    /// Evaluation is defined everywhere: there is at least one profile
    /// curve, and every profile curve has at least one control point.
    pub open spec fn wf(&self) -> bool {
        &&& self.profile_view().len() >= 1
        &&& forall|i: int|
            0 <= i < self.profile_view().len() ==> #[trigger] self.profile_view()[i]@.len() >= 1
    }
}

impl<F: Scalar, V: SurfaceVector<F>> BezierSurface<V, F> {
    /// A new surface over the given profile curves, not looping, with the
    /// scalar type's default finite-difference step.
    pub fn new(profile: Vec<BezierCurve<V>>) -> (r: Self)
        ensures
            r.profile_view() == profile@,
            !r.is_looping(),
            r.precision() == F::default_step_spec(),
    {
        BezierSurface { profile, dtprec: F::default_step(), looping: false }
    }

    /// The same surface with the finite-difference step replaced.
    pub fn with_precision(self, prec: F) -> (r: Self)
        ensures
            r.profile_view() == self.profile_view(),
            r.is_looping() == self.is_looping(),
            r.precision() == prec,
    {
        BezierSurface { dtprec: prec, ..self }
    }

    /// The same surface with the looping flag replaced.
    pub fn looping(self, v: bool) -> (r: Self)
        ensures
            r.profile_view() == self.profile_view(),
            r.is_looping() == v,
            r.precision() == self.precision(),
    {
        BezierSurface { looping: v, ..self }
    }

    /// The surface point at `(u, v)`: every profile curve is evaluated at
    /// `u`, and the derived points, as the control polygon of a transient
    /// curve inheriting the surface's looping flag, are blended at `v`.
    pub fn get_point(&self, u: F, v: F) -> (r: V)
        requires
            self.wf(),
        ensures
            r == surface_at(self.profile_view(), self.is_looping(), u, v),
    {
        let m = self.profile.len();
        let mut derived: Vec<V> = Vec::new();
        let mut i: usize = 0;
        while i < m
            invariant
                i <= m,
                m == self.profile@.len(),
                forall|k: int| 0 <= k < m ==> #[trigger] self.profile@[k]@.len() >= 1,
                derived@.len() == i,
                forall|k: int| 0 <= k < i ==> derived@[k] == derived_points(self.profile@, u)[k],
            decreases m - i,
        {
            let c = &self.profile[i];
            derived.push(c.get_point(u));
            i = i + 1;
        }
        proof {
            assert(derived@ =~= derived_points(self.profile@, u));
        }
        BezierCurve::new(derived).looping(self.looping).get_point(v)
    }

    /// The combined finite-difference gradient at `(u, v)`: the anchor point,
    /// forward differences at `(u + dt, v)` and `(u, v + dt)` scaled by the
    /// reciprocal step, summed into a single vector. Callers normalize the
    /// result before using it as a surface normal.
    pub fn gradient(&self, u: F, v: F) -> (r: V)
        requires
            self.wf(),
        ensures
            r == surface_gradient(
                self.profile_view(),
                self.is_looping(),
                self.precision(),
                u,
                v,
            ),
    {
        let anchor = self.get_point(u, v);
        let du = self.get_point(u.plus(self.dtprec), v).diff_scale(anchor, self.dtprec);
        let dv = self.get_point(u, v.plus(self.dtprec)).diff_scale(anchor, self.dtprec);
        du.plus(dv)
    }

    /// The second-order finite-difference vector at `(u, v)`: the forward
    /// difference step of `gradient` applied to the gradient itself, an
    /// approximation of curvature for smoother normal estimates.
    pub fn second_gradient(&self, u: F, v: F) -> (r: V)
        requires
            self.wf(),
        ensures
            r == surface_second_gradient(
                self.profile_view(),
                self.is_looping(),
                self.precision(),
                u,
                v,
            ),
    {
        let anchor = self.gradient(u, v);
        let du = self.gradient(u.plus(self.dtprec), v).diff_scale(anchor, self.dtprec);
        let dv = self.gradient(u, v.plus(self.dtprec)).diff_scale(anchor, self.dtprec);
        du.plus(dv)
    }

    /// The surface as a triangle mesh over a `u x v` grid of samples.
    ///
    /// Vertices are stored row-major, `index = j * u + i`, each sampled at
    /// the parameter pair `((i+1)/u, (j+1)/v)`; every grid cell is joined
    /// with its right and lower neighbours into two triangles in a fixed
    /// winding. Fewer than two segments in either axis is rejected with
    /// `InvalidGridSize`, and every produced index is in range for the
    /// vertex buffer.
    pub fn triangulate(&self, u: usize, v: usize) -> (r: Result<Mesh<V, F>, SurfaceError>)
        requires
            self.wf(),
            u * v <= u32::MAX,
        ensures
            match r {
                Ok(m) => {
                    &&& 2 <= u && 2 <= v
                    &&& m.vertices@.len() == u * v
                    &&& (forall|k: int|
                        0 <= k < u * v ==> #[trigger] m.vertices@[k] == grid_vertex(
                            self.profile_view(),
                            self.is_looping(),
                            self.precision(),
                            k % (u as int),
                            k / (u as int),
                            u as int,
                            v as int,
                        ))
                    &&& m.indices@.len() == 6 * ((u - 1) * (v - 1))
                    &&& (forall|c: int|
                        0 <= c < (u - 1) * (v - 1) ==> #[trigger] cell_corners_ok(
                            m.indices@,
                            c,
                            u as int,
                        ))
                    &&& (forall|k: int|
                        0 <= k < m.indices@.len() ==> (#[trigger] m.indices@[k]) < u * v)
                },
                Err(e) => e == SurfaceError::InvalidGridSize && (u < 2 || v < 2),
            },
    {
        if u < 2 || v < 2 {
            return Err(SurfaceError::InvalidGridSize);
        }
        let mut vertices: Vec<Vertex<V, F>> = Vec::new();
        let mut j: usize = 0;
        while j < v
            invariant
                self.wf(),
                2 <= u,
                2 <= v,
                u * v <= u32::MAX,
                j <= v,
                vertices@.len() == j * u,
                forall|k: int|
                    0 <= k < j * u ==> #[trigger] vertices@[k] == grid_vertex(
                        self.profile_view(),
                        self.is_looping(),
                        self.precision(),
                        k % (u as int),
                        k / (u as int),
                        u as int,
                        v as int,
                    ),
            decreases v - j,
        {
            let mut i: usize = 0;
            while i < u
                invariant
                    self.wf(),
                    2 <= u,
                    2 <= v,
                    u * v <= u32::MAX,
                    j < v,
                    i <= u,
                    vertices@.len() == j * u + i,
                    forall|k: int|
                        0 <= k < j * u + i ==> #[trigger] vertices@[k] == grid_vertex(
                            self.profile_view(),
                            self.is_looping(),
                            self.precision(),
                            k % (u as int),
                            k / (u as int),
                            u as int,
                            v as int,
                        ),
                decreases u - i,
            {
                let fu = F::from_ratio(i + 1, u);
                let fv = F::from_ratio(j + 1, v);
                let position = self.get_point(fu, fv);
                let normal = self.gradient(fu, fv).normalized();
                vertices.push(Vertex { position, normal, uv: Uv { u: fu, v: fv } });
                proof {
                    lemma_fundamental_div_mod_converse(
                        j * u + i,
                        u as int,
                        j as int,
                        i as int,
                    );
                }
                i = i + 1;
            }
            proof {
                assert((j + 1) * u == j * u + u) by (nonlinear_arith);
            }
            j = j + 1;
        }
        let mut indices: Vec<u32> = Vec::new();
        let mut j: usize = 0;
        while j < v - 1
            invariant
                2 <= u,
                2 <= v,
                u * v <= u32::MAX,
                j <= v - 1,
                indices@.len() == 6 * (j * (u - 1)),
                forall|c: int|
                    0 <= c < j * (u - 1) ==> #[trigger] cell_corners_ok(indices@, c, u as int),
                forall|k: int|
                    0 <= k < indices@.len() ==> (#[trigger] indices@[k]) < u * v,
            decreases v - 1 - j,
        {
            let mut i: usize = 0;
            while i < u - 1
                invariant
                    2 <= u,
                    2 <= v,
                    u * v <= u32::MAX,
                    j <= v - 2,
                    i <= u - 1,
                    indices@.len() == 6 * (j * (u - 1) + i),
                    forall|c: int|
                        0 <= c < j * (u - 1) + i ==> #[trigger] cell_corners_ok(
                            indices@,
                            c,
                            u as int,
                        ),
                    forall|k: int|
                        0 <= k < indices@.len() ==> (#[trigger] indices@[k]) < u * v,
                decreases u - 1 - i,
            {
                proof {
                    assert(j * u + i + u + 1 < u * v) by (nonlinear_arith)
                        requires
                            2 <= u,
                            2 <= v,
                            0 <= i <= u - 2,
                            0 <= j <= v - 2,
                    ;
                }
                let ghost pre = indices@;
                let idx = j * u + i;
                let idx_next = idx + u;
                indices.push(idx as u32);
                indices.push((idx + 1) as u32);
                indices.push(idx_next as u32);
                indices.push((idx + 1) as u32);
                indices.push((idx_next + 1) as u32);
                indices.push(idx_next as u32);
                proof {
                    let c0 = j * (u - 1) + i;
                    lemma_fundamental_div_mod_converse(
                        c0 as int,
                        (u - 1) as int,
                        j as int,
                        i as int,
                    );
                    assert(forall|x: int| 0 <= x < 6 * c0 ==> indices@[x] == pre[x]);
                    assert(cell_corners_ok(indices@, c0 as int, u as int));
                    assert forall|c: int|
                        0 <= c < c0 + 1 implies #[trigger] cell_corners_ok(
                        indices@,
                        c,
                        u as int,
                    ) by {
                        if c < c0 {
                            assert(cell_corners_ok(pre, c, u as int));
                        }
                    };
                }
                i = i + 1;
            }
            proof {
                assert((j + 1) * (u - 1) == j * (u - 1) + (u - 1)) by (nonlinear_arith);
            }
            j = j + 1;
        }
        proof {
            assert(v * u == u * v) by (nonlinear_arith);
            assert((v - 1) * (u - 1) == (u - 1) * (v - 1)) by (nonlinear_arith);
        }
        Ok(Mesh { vertices, indices })
    }
}

/// At the ends of an open across-profiles blend the surface reproduces its
/// edge profile curves exactly: at a zero `v` the surface point is the first
/// profile curve's point at `u`, and at a unit `v` the last one's.
pub proof fn lemma_surface_edge_profiles<F: Copy, V: Lerp<F>>(
    profile: Seq<BezierCurve<V>>,
    u: F,
    v0: F,
    v1: F,
)
    requires
        profile.len() >= 1,
        V::is_zero(v0),
        V::is_one(v1),
    ensures
        surface_at(profile, false, u, v0) == curve_point(
            profile[0]@,
            u,
            profile[0].is_looping(),
        ),
        surface_at(profile, false, u, v1) == curve_point(
            profile.last()@,
            u,
            profile.last().is_looping(),
        ),
{
    let d = derived_points(profile, u);
    lemma_open_endpoints(d, v0, v1);
}

/// A surface with a single profile curve collapses to that curve: for every
/// `v` and either looping state, the surface point at `(u, v)` is the
/// profile curve's own point at `u`.
pub proof fn lemma_single_profile<F: Copy, V: Lerp<F>>(
    profile: Seq<BezierCurve<V>>,
    u: F,
    v: F,
    looping: bool,
)
    requires
        profile.len() == 1,
    ensures
        surface_at(profile, looping, u, v) == curve_point(
            profile[0]@,
            u,
            profile[0].is_looping(),
        ),
{
    let d = derived_points(profile, u);
    lemma_single_control_point(d, v, looping);
}

} // verus!
