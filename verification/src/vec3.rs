//! Fixed-point 3-vectors: squared length, integer length, and rescaling a
//! vector to a requested length while keeping its direction.
//!
//! Rescaling is the one geometric kernel the camera rig needs twice: the
//! third-person reprojection scales the camera offset to an edited radial
//! distance, and the move controller scales a movement-intent direction to
//! the distance covered in one tick.

use vstd::prelude::*;
use crate::fixed::isqrt;
use crate::fixed::lemma_isqrt_bounds;
use crate::fixed::mag;
use crate::fixed::sgn;
use vstd::arithmetic::div_mod::lemma_basic_div;
use vstd::arithmetic::div_mod::lemma_div_is_ordered;
use vstd::arithmetic::div_mod::lemma_fundamental_div_mod;
use vstd::arithmetic::div_mod::lemma_fundamental_div_mod_converse;
use vstd::arithmetic::mul::lemma_mul_inequality;

verus! {

/// Largest coordinate magnitude the vector helpers accept: one million world
/// units in position ticks, far beyond any scene while keeping every
/// intermediate product inside 64 bits.
pub const COORD_LIMIT: i64 = 1_000_000_000;

/// An upper bound for the integer length of a vector whose coordinates obey
/// `COORD_LIMIT`.
pub const NORM_BOUND: u64 = 1_800_000_000;

/// A 3-vector in position ticks (thousandths of a world unit).
#[derive(Clone, Copy, PartialEq, Eq, Structural, Debug)]
pub struct Vec3i {
    pub x: i64,
    pub y: i64,
    pub z: i64,
}

impl Vec3i {
    /// The squared Euclidean length.
    pub open spec fn norm_sq(self) -> int {
        self.x * self.x + self.y * self.y + self.z * self.z
    }

    /// The integer Euclidean length: the integer square root of the squared
    /// length.
    pub open spec fn norm(self) -> int {
        isqrt(self.norm_sq() as nat) as int
    }

    /// Every coordinate has magnitude at most `b`.
    pub open spec fn bounded(self, b: int) -> bool {
        mag(self.x as int) <= b && mag(self.y as int) <= b && mag(self.z as int) <= b
    }

    /// The zero vector.
    pub open spec fn is_zero(self) -> bool {
        self.x == 0 && self.y == 0 && self.z == 0
    }

    /// The zero vector, executably.
    pub fn zero() -> (v: Vec3i)
        ensures
            v.is_zero(),
    {
        Vec3i { x: 0, y: 0, z: 0 }
    }
}

/// A square is never negative.
pub proof fn lemma_sq_nonneg(x: int)
    ensures
        x * x >= 0,
        x * x == mag(x) * mag(x),
{
    assert(x * x >= 0 && x * x == mag(x) * mag(x)) by (nonlinear_arith)
        requires
            mag(x) == if x < 0 {
                -x
            } else {
                x
            },
    ;
}

/// A square is monotone in the magnitude.
pub proof fn lemma_sq_le(a: int, b: int)
    requires
        0 <= a <= b,
    ensures
        a * a <= b * b,
{
    lemma_mul_inequality(a, b, a);
    lemma_mul_inequality(a, b, b);
}

/// No coordinate magnitude exceeds the integer length.
pub proof fn lemma_coord_le_norm(v: Vec3i)
    ensures
        v.norm_sq() >= 0,
        mag(v.x as int) <= v.norm(),
        mag(v.y as int) <= v.norm(),
        mag(v.z as int) <= v.norm(),
{
    lemma_sq_nonneg(v.x as int);
    lemma_sq_nonneg(v.y as int);
    lemma_sq_nonneg(v.z as int);
    lemma_isqrt_bounds(v.norm_sq() as nat);
    let n = v.norm();
    assert forall|c: int| c * c <= v.norm_sq() implies mag(c) <= n by {
        if mag(c) > n {
            lemma_sq_le(n + 1, mag(c));
            lemma_sq_nonneg(c);
        }
    }
}

/// A nonzero vector has a positive integer length.
pub proof fn lemma_nonzero_norm(v: Vec3i)
    requires
        !v.is_zero(),
    ensures
        v.norm_sq() >= 1,
        v.norm() >= 1,
{
    lemma_coord_le_norm(v);
    if v.x != 0 {
        lemma_sq_le(1, mag(v.x as int));
        lemma_sq_nonneg(v.x as int);
    } else if v.y != 0 {
        lemma_sq_le(1, mag(v.y as int));
        lemma_sq_nonneg(v.y as int);
    } else {
        lemma_sq_le(1, mag(v.z as int));
        lemma_sq_nonneg(v.z as int);
    }
    lemma_isqrt_bounds(v.norm_sq() as nat);
    if v.norm() == 0 {
        assert(v.norm_sq() < 1);
    }
}

/// The magnitude of a coordinate, executably.
pub fn abs_i64(x: i64) -> (r: u64)
    requires
        i64::MIN < x,
    ensures
        r == mag(x as int),
{
    if x < 0 {
        (-x) as u64
    } else {
        x as u64
    }
}

/// The squared length, executably.
pub fn norm_sq_u64(v: &Vec3i) -> (r: u64)
    requires
        v.bounded(COORD_LIMIT as int),
    ensures
        r == v.norm_sq(),
        r <= 3_000_000_000_000_000_000,
{
    let mx: u64 = abs_i64(v.x);
    let my: u64 = abs_i64(v.y);
    let mz: u64 = abs_i64(v.z);
    proof {
        lemma_sq_nonneg(v.x as int);
        lemma_sq_nonneg(v.y as int);
        lemma_sq_nonneg(v.z as int);
        lemma_mul_inequality(mx as int, 1_000_000_000, mx as int);
        lemma_mul_inequality(my as int, 1_000_000_000, my as int);
        lemma_mul_inequality(mz as int, 1_000_000_000, mz as int);
        lemma_mul_inequality(mx as int, 1_000_000_000, 1_000_000_000);
        lemma_mul_inequality(my as int, 1_000_000_000, 1_000_000_000);
        lemma_mul_inequality(mz as int, 1_000_000_000, 1_000_000_000);
    }
    mx * mx + my * my + mz * mz
}

/// The integer length, executably.
pub fn norm_u64(v: &Vec3i) -> (r: u64)
    requires
        v.bounded(COORD_LIMIT as int),
    ensures
        r == v.norm(),
        r <= NORM_BOUND,
{
    let ns: u64 = norm_sq_u64(v);
    let n: u64 = crate::fixed::isqrt_u64(ns);
    proof {
        if n > NORM_BOUND {
            lemma_sq_le(1_800_000_001, n as int);
        }
    }
    n
}

/// The magnitude of a coordinate rescaled by the ratio `d / n`, rounded to
/// the nearest tick (half away from zero).
pub open spec fn scaled_mag(d: int, m: int, n: int) -> int {
    (2 * d * m + n) / (2 * n)
}

/// A coordinate rescaled by the ratio `d / n`: the rescaled magnitude with
/// the coordinate's own sign.
pub open spec fn scale_coord(d: int, x: int, n: int) -> int {
    sgn(x) * scaled_mag(d, mag(x), n)
}

/// The rescaled magnitude stays between zero and the requested length.
pub proof fn lemma_scaled_mag_range(d: int, m: int, n: int)
    requires
        0 <= d,
        0 <= m <= n,
        1 <= n,
    ensures
        0 <= scaled_mag(d, m, n) <= d,
{
    lemma_mul_inequality(m, n, 2 * d);
    assert(2 * d * m == (2 * d) * m) by (nonlinear_arith);
    assert(2 * d * n == (2 * d) * n) by (nonlinear_arith);
    assert(2 * d * n + n == d * (2 * n) + n) by (nonlinear_arith);
    lemma_fundamental_div_mod_converse(2 * d * n + n, 2 * n, d, n);
    lemma_div_is_ordered(0, 2 * d * m + n, 2 * n);
    lemma_div_is_ordered(2 * d * m + n, 2 * d * n + n, 2 * n);
}

/// Rescaling preserves the ray through the origin: the rescaled coordinate
/// times the old length differs from the requested length times the old
/// coordinate by at most half the old length.
pub proof fn lemma_scale_coord_ray(d: int, x: int, n: int)
    requires
        0 <= d,
        1 <= n,
    ensures
        2 * mag(scale_coord(d, x, n) * n - d * x) <= n,
{
    let m = mag(x);
    let q = scaled_mag(d, m, n);
    lemma_fundamental_div_mod(2 * d * m + n, 2 * n);
    let rr = (2 * d * m + n) % (2 * n);
    vstd::arithmetic::div_mod::lemma_mod_bound(2 * d * m + n, 2 * n);
    assert(2 * d * m + n == q * (2 * n) + rr);
    assert(2 * (q * n - d * m) == n - rr) by (nonlinear_arith)
        requires
            2 * d * m + n == q * (2 * n) + rr,
    ;
    assert(2 * mag(q * n - d * m) <= n);
    if x == 0 {
        lemma_basic_div(n, 2 * n);
        assert(2 * d * 0 == 0) by (nonlinear_arith);
        assert(q == 0);
        assert(scale_coord(d, 0, n) == 0) by {
            lemma_scale_coord_zero(d, n);
        }
        assert(0 * n == 0 && d * 0 == 0 && q * n == 0) by (nonlinear_arith)
            requires
                q == 0,
        ;
    } else if x > 0 {
        assert(scale_coord(d, x, n) * n - d * x == q * n - d * m) by (nonlinear_arith)
            requires
                x == m,
                scale_coord(d, x, n) == 1 * q,
                x > 0,
        ;
    } else {
        assert(scale_coord(d, x, n) * n - d * x == -(q * n - d * m)) by (nonlinear_arith)
            requires
                m == -x,
                scale_coord(d, x, n) == -1 * q,
                x < 0,
        ;
    }
}

/// One coordinate's contribution to the squared length of a rescaled
/// vector: expanding `(r n)^2 = (d x + e)^2` around the rounding error `e`
/// bounds it by `d^2 x^2` plus a cross term of at most `d n^2` and a square
/// of at most a third of `n^2`.
proof fn lemma_scale_coord_sq(d: int, x: int, n: int)
    requires
        0 < d,
        1 <= n,
        mag(x) <= n,
    ensures
        ({
            let r = scale_coord(d, x, n);
            &&& n * n * (r * r) >= d * d * (x * x) - d * (n * n)
            &&& n * n * (r * r) <= d * d * (x * x) + d * (n * n) + (n * n) / 3
        }),
{
    let r = scale_coord(d, x, n);
    let e = r * n - d * x;
    lemma_scale_coord_ray(d, x, n);
    assert(2 * mag(e) <= n);
    assert((r * n) * (r * n) == d * d * (x * x) + 2 * ((d * x) * e) + e * e) by (nonlinear_arith)
        requires
            e == r * n - d * x,
    ;
    assert(n * n * (r * r) == (r * n) * (r * n)) by (nonlinear_arith);
    assert(-(d * (n * n)) <= 2 * ((d * x) * e) <= d * (n * n)) by (nonlinear_arith)
        requires
            0 < d,
            1 <= n,
            -n <= x <= n,
            -n <= 2 * e <= n,
    ;
    assert(0 <= e * e && 3 * (e * e) <= n * n) by (nonlinear_arith)
        requires
            -n <= 2 * e <= n,
            1 <= n,
    ;
    assert(e * e <= (n * n) / 3) by {
        vstd::arithmetic::div_mod::lemma_fundamental_div_mod(n * n, 3);
        vstd::arithmetic::div_mod::lemma_mod_bound(n * n, 3);
    }
}

/// Rescaling preserves the length: the squared length of the rescaled
/// vector, multiplied by the square of the old integer length, lies within
/// `3 d n^2 + n^2` of the requested length squared times the old squared
/// length. For any offset much longer than one tick, the new length is the
/// requested one up to rounding.
pub proof fn lemma_scale_preserves_length(v: Vec3i, d: int)
    requires
        0 < d,
        !v.is_zero(),
    ensures
        ({
            let n = v.norm();
            let rx = scale_coord(d, v.x as int, n);
            let ry = scale_coord(d, v.y as int, n);
            let rz = scale_coord(d, v.z as int, n);
            let rsq = rx * rx + ry * ry + rz * rz;
            &&& n * n * rsq >= d * d * v.norm_sq() - 3 * d * (n * n)
            &&& n * n * rsq <= d * d * v.norm_sq() + 3 * d * (n * n) + n * n
        }),
{
    let n = v.norm();
    lemma_nonzero_norm(v);
    lemma_coord_le_norm(v);
    lemma_scale_coord_sq(d, v.x as int, n);
    lemma_scale_coord_sq(d, v.y as int, n);
    lemma_scale_coord_sq(d, v.z as int, n);
    let rx = scale_coord(d, v.x as int, n);
    let ry = scale_coord(d, v.y as int, n);
    let rz = scale_coord(d, v.z as int, n);
    assert(n * n * (rx * rx + ry * ry + rz * rz) == n * n * (rx * rx) + n * n * (ry * ry) + n * n
        * (rz * rz)) by (nonlinear_arith);
    assert(d * d * v.norm_sq() == d * d * (v.x as int * (v.x as int)) + d * d * (v.y as int * (
    v.y as int)) + d * d * (v.z as int * (v.z as int))) by (nonlinear_arith)
        requires
            v.norm_sq() == v.x as int * (v.x as int) + v.y as int * (v.y as int) + v.z as int * (
            v.z as int),
    ;
    assert(3 * ((n * n) / 3) <= n * n) by {
        vstd::arithmetic::div_mod::lemma_fundamental_div_mod(n * n, 3);
        vstd::arithmetic::div_mod::lemma_mod_bound(n * n, 3);
    }
    let rsq = rx * rx + ry * ry + rz * rz;
    assert(n * n * rsq >= d * d * v.norm_sq() - 3 * (d * (n * n)));
    assert(n * n * rsq <= d * d * v.norm_sq() + 3 * (d * (n * n)) + n * n);
    assert(3 * (d * (n * n)) == 3 * d * (n * n)) by (nonlinear_arith);
}

/// A zero coordinate rescales to zero, whatever the requested length.
pub proof fn lemma_scale_coord_zero(d: int, n: int)
    ensures
        scale_coord(d, 0, n) == 0,
{
    assert(sgn(0) == 0);
    assert(0 * scaled_mag(d, 0, n) == 0) by (nonlinear_arith);
}

/// One coordinate rescaled executably, exactly `scale_coord`.
pub fn scale_one(x: i64, d: i64, n: u64) -> (r: i64)
    requires
        mag(x as int) <= n,
        1 <= n <= NORM_BOUND,
        0 <= d <= COORD_LIMIT,
    ensures
        r == scale_coord(d as int, x as int, n as int),
        mag(r as int) <= d,
{
    let mx: u64 = abs_i64(x);
    proof {
        lemma_mul_inequality(d as int, 1_000_000_000, mx as int);
        lemma_mul_inequality(mx as int, NORM_BOUND as int, 1_000_000_000);
        assert(2 * (d as int) * (mx as int) == 2 * ((d as int) * (mx as int))) by (nonlinear_arith);
        lemma_scaled_mag_range(d as int, mx as int, n as int);
    }
    let num: u64 = 2 * (d as u64) * mx + n;
    let den: u64 = 2 * n;
    let q: u64 = num / den;
    if x < 0 {
        -(q as i64)
    } else {
        proof {
            if x == 0 {
                lemma_basic_div(n as int, 2 * n as int);
                assert(scale_coord(d as int, 0, n as int) == 0) by {
                    lemma_scale_coord_zero(d as int, n as int);
                }
            }
        }
        q as i64
    }
}

/// A nonzero vector rescaled to the requested length `d`, coordinate by
/// coordinate, keeping each coordinate's sign and the mutual proportions up
/// to one rounding tick.
pub fn scale_to_length(v: &Vec3i, d: i64) -> (r: Vec3i)
    requires
        v.bounded(COORD_LIMIT as int),
        !v.is_zero(),
        0 <= d <= COORD_LIMIT,
    ensures
        r.x == scale_coord(d as int, v.x as int, v.norm()),
        r.y == scale_coord(d as int, v.y as int, v.norm()),
        r.z == scale_coord(d as int, v.z as int, v.norm()),
        r.bounded(d as int),
{
    proof {
        lemma_coord_le_norm(*v);
        lemma_nonzero_norm(*v);
    }
    let n: u64 = norm_u64(v);
    let rx: i64 = scale_one(v.x, d, n);
    let ry: i64 = scale_one(v.y, d, n);
    let rz: i64 = scale_one(v.z, d, n);
    Vec3i { x: rx, y: ry, z: rz }
}

} // verus!
