//! An exact instantiation of the interpolation traits: 3-D points whose
//! coordinates live in the ring of integers modulo 2^64, blended by integer
//! factors.
//!
//! Every operation here is exact, so the algebraic behaviour of the curve
//! and surface evaluators can be verified and tested without the rounding of
//! floating-point arithmetic. The interpolation identities hold in the ring:
//! blending by `0` keeps the start, blending by `1` lands on the target, and
//! other factors extrapolate linearly modulo 2^64.

use vstd::prelude::*;
use vstd::arithmetic::div_mod::{lemma_mod_multiples_vanish, lemma_small_mod};
use crate::bezier::curve::Lerp;
use crate::bezier::surface::{Scalar, SurfaceVector};

verus! {

/// The modulus of the coordinate ring: 2^64.
pub open spec fn modulus() -> int {
    0x1_0000_0000_0000_0000
}

/// Wrap-around linear interpolation of one coordinate:
/// `a + s * (b - a)` in the ring of integers modulo 2^64.
pub open spec fn wlerp(a: u64, b: u64, s: u64) -> u64 {
    (((a + s * ((b - a) % modulus())) % modulus()) as u64)
}

/// Wrap-around sum of two coordinates.
pub open spec fn wadd(a: u64, b: u64) -> u64 {
    (((a + b) % modulus()) as u64)
}

/// Wrap-around difference of two coordinates.
pub open spec fn wsub(a: u64, b: u64) -> u64 {
    (((a - b) % modulus()) as u64)
}

/// One coordinate divided by a scale factor, rounding towards zero; a zero
/// factor leaves the coordinate unscaled.
pub open spec fn sdiv(a: u64, d: u64) -> u64 {
    if d == 0 {
        a
    } else {
        (a / d) as u64
    }
}

/// `(x + 2^64) % 2^64 == x % 2^64`: adding one modulus does not change a
/// residue.
proof fn lemma_wrap_once(x: int)
    ensures
        (x + modulus()) % modulus() == x % modulus(),
{
    lemma_mod_multiples_vanish(1, x, modulus());
}

/// Exact exec counterpart of `wsub`, computed without wrap-around in `u128`.
fn sub_u64(a: u64, b: u64) -> (r: u64)
    ensures
        r == wsub(a, b),
{
    let m: u128 = 0x1_0000_0000_0000_0000;
    let d: u128 = (a as u128 + m - b as u128) % m;
    proof {
        lemma_wrap_once(a - b);
        lemma_small_mod(((a - b + m) % (m as int)) as nat, m as nat);
    }
    d as u64
}

/// Exact exec counterpart of `wadd`.
fn add_u64(a: u64, b: u64) -> (r: u64)
    ensures
        r == wadd(a, b),
{
    let m: u128 = 0x1_0000_0000_0000_0000;
    let s: u128 = (a as u128 + b as u128) % m;
    s as u64
}

/// Exact exec counterpart of `wlerp`, computed without wrap-around in `u128`.
fn lerp_u64(a: u64, b: u64, s: u64) -> (r: u64)
    ensures
        r == wlerp(a, b, s),
{
    let m: u128 = 0x1_0000_0000_0000_0000;
    let d: u128 = (b as u128 + m - a as u128) % m;
    proof {
        lemma_wrap_once(b - a);
        assert((s as u128) * d <= (m - 1) * (m - 1)) by (nonlinear_arith)
            requires
                s < m,
                d < m,
                m == 0x1_0000_0000_0000_0000,
        ;
    }
    let p: u128 = (s as u128) * d;
    let r: u128 = (a as u128 + p) % m;
    r as u64
}

/// Blending by the factor `0` keeps the first coordinate.
proof fn lemma_wlerp_zero(a: u64, b: u64)
    ensures
        wlerp(a, b, 0) == a,
{
    lemma_small_mod(a as nat, modulus() as nat);
}

/// Blending by the factor `1` lands on the second coordinate.
proof fn lemma_wlerp_one(a: u64, b: u64)
    ensures
        wlerp(a, b, 1) == b,
{
    let m = modulus();
    lemma_wrap_once(b - a);
    if a <= b {
        lemma_small_mod((b - a) as nat, m as nat);
        lemma_small_mod(b as nat, m as nat);
    } else {
        lemma_small_mod((b - a + m) as nat, m as nat);
        lemma_wrap_once(b as int);
        lemma_small_mod(b as nat, m as nat);
    }
}

/// A 3-D point with coordinates in the ring of integers modulo 2^64.
///
/// The point is `Copy` and blends coordinatewise, so it can serve as the
/// control-point type of curves and surfaces; the blend factor is a plain
/// integer of the same ring.
#[derive(Debug, Clone, Copy, PartialEq, Eq, Structural)]
pub struct Point3 {
    pub x: u64,
    pub y: u64,
    pub z: u64,
}

impl Point3 {
    /// The point with the given coordinates.
    pub fn new(x: u64, y: u64, z: u64) -> (r: Self)
        ensures
            r == (Point3 { x, y, z }),
    {
        Point3 { x, y, z }
    }
}

impl Lerp<u64> for Point3 {
    open spec fn lerp_spec(self, other: Self, s: u64) -> Self {
        Point3 {
            x: wlerp(self.x, other.x, s),
            y: wlerp(self.y, other.y, s),
            z: wlerp(self.z, other.z, s),
        }
    }

    open spec fn is_zero(s: u64) -> bool {
        s == 0
    }

    open spec fn is_one(s: u64) -> bool {
        s == 1
    }

    proof fn lerp_zero(a: Self, b: Self, s: u64) {
        lemma_wlerp_zero(a.x, b.x);
        lemma_wlerp_zero(a.y, b.y);
        lemma_wlerp_zero(a.z, b.z);
    }

    proof fn lerp_one(a: Self, b: Self, s: u64) {
        lemma_wlerp_one(a.x, b.x);
        lemma_wlerp_one(a.y, b.y);
        lemma_wlerp_one(a.z, b.z);
    }

    fn lerp(self, other: Self, s: u64) -> (r: Self) {
        Point3 {
            x: lerp_u64(self.x, other.x, s),
            y: lerp_u64(self.y, other.y, s),
            z: lerp_u64(self.z, other.z, s),
        }
    }
}

impl Scalar for u64 {
    open spec fn ratio_spec(num: usize, den: usize) -> u64 {
        ((num / den) as u64)
    }

    fn from_ratio(num: usize, den: usize) -> (r: u64) {
        (num / den) as u64
    }

    open spec fn plus_spec(self, other: u64) -> u64 {
        wadd(self, other)
    }

    fn plus(self, other: u64) -> (r: u64) {
        add_u64(self, other)
    }

    open spec fn default_step_spec() -> u64 {
        1
    }

    fn default_step() -> (r: u64) {
        1
    }
}

impl SurfaceVector<u64> for Point3 {
    open spec fn diff_scale_spec(self, anchor: Self, dt: u64) -> Self {
        Point3 {
            x: sdiv(wsub(self.x, anchor.x), dt),
            y: sdiv(wsub(self.y, anchor.y), dt),
            z: sdiv(wsub(self.z, anchor.z), dt),
        }
    }

    fn diff_scale(self, anchor: Self, dt: u64) -> (r: Self) {
        let dx = sub_u64(self.x, anchor.x);
        let dy = sub_u64(self.y, anchor.y);
        let dz = sub_u64(self.z, anchor.z);
        if dt == 0 {
            Point3 { x: dx, y: dy, z: dz }
        } else {
            Point3 { x: dx / dt, y: dy / dt, z: dz / dt }
        }
    }

    open spec fn add_spec(self, other: Self) -> Self {
        Point3 {
            x: wadd(self.x, other.x),
            y: wadd(self.y, other.y),
            z: wadd(self.z, other.z),
        }
    }

    fn plus(self, other: Self) -> (r: Self) {
        Point3 {
            x: add_u64(self.x, other.x),
            y: add_u64(self.y, other.y),
            z: add_u64(self.z, other.z),
        }
    }

    open spec fn normalized_spec(self) -> Self {
        self
    }

    /// The ring has no square root, so directions are reported unscaled.
    fn normalized(self) -> (r: Self) {
        self
    }
}

} // verus!
