//! Fixed-point scalar arithmetic: magnitudes, floor division, integer square
//! root, angle wrapping and clamping.
//!
//! Angles are millidegrees (one degree is 1000 ticks), positions are
//! thousandths of a world unit. All executable helpers carry exact contracts
//! over the mathematical integers.

use vstd::prelude::*;
use vstd::arithmetic::div_mod::lemma_fundamental_div_mod;
use vstd::arithmetic::div_mod::lemma_fundamental_div_mod_converse;
use vstd::arithmetic::mul::lemma_mul_inequality;

verus! {

/// Position ticks per world unit.
pub const MILLI: i64 = 1000;

/// Angle ticks per degree.
pub const MDEG: i64 = 1000;

/// Half a turn, in millidegrees. Wrapped angles lie in [-HALF_TURN_MDEG, HALF_TURN_MDEG).
pub const HALF_TURN_MDEG: i64 = 180_000;

/// A full turn, in millidegrees.
pub const FULL_TURN_MDEG: i64 = 360_000;

/// The pitch clamp bound: nine tenths of a quarter turn, so the view never
/// reaches straight up or straight down and the derived rotation cannot
/// gimbal-flip.
pub const PITCH_LIMIT_MDEG: i64 = 81_000;

/// Absolute value over the mathematical integers.
pub open spec fn mag(x: int) -> int {
    if x < 0 {
        -x
    } else {
        x
    }
}

/// The sign of an integer: -1, 0 or 1.
pub open spec fn sgn(x: int) -> int {
    if x < 0 {
        -1
    } else if x > 0 {
        1
    } else {
        0
    }
}

/// Clamping to a closed interval.
pub open spec fn clamp_i(x: int, lo: int, hi: int) -> int {
    if x < lo {
        lo
    } else if x > hi {
        hi
    } else {
        x
    }
}

/// Executable clamp, exactly `clamp_i`.
pub fn clamp_i64(x: i64, lo: i64, hi: i64) -> (r: i64)
    requires
        lo <= hi,
    ensures
        r == clamp_i(x as int, lo as int, hi as int),
{
    if x < lo {
        lo
    } else if x > hi {
        hi
    } else {
        x
    }
}

/// The integer square root: the largest `r` with `r * r <= n`.
pub open spec fn isqrt(n: nat) -> nat
    decreases n,
{
    if n == 0 {
        0
    } else {
        let r = isqrt((n - 1) as nat);
        if (r + 1) * (r + 1) <= n {
            r + 1
        } else {
            r
        }
    }
}

/// `isqrt(n)` is characterised by `r * r <= n < (r + 1) * (r + 1)`.
pub proof fn lemma_isqrt_bounds(n: nat)
    ensures
        isqrt(n) * isqrt(n) <= n,
        n < (isqrt(n) + 1) * (isqrt(n) + 1),
    decreases n,
{
    reveal_with_fuel(isqrt, 2);
    if n == 0 {
        assert(isqrt(0nat) == 0);
        assert((isqrt(n) + 1) * (isqrt(n) + 1) == 1) by (nonlinear_arith)
            requires
                isqrt(n) == 0,
        ;
    } else {
        lemma_isqrt_bounds((n - 1) as nat);
        let r = isqrt((n - 1) as nat);
        assert(r * r <= n - 1 && n - 1 < (r + 1) * (r + 1));
        if (r + 1) * (r + 1) <= n {
            assert(isqrt(n) == r + 1);
            assert(isqrt(n) * isqrt(n) <= n);
            assert((r + 2) * (r + 2) > (r + 1) * (r + 1)) by (nonlinear_arith);
            assert(n < (isqrt(n) + 1) * (isqrt(n) + 1));
        } else {
            assert(isqrt(n) == r);
            assert(isqrt(n) * isqrt(n) <= n);
            assert(n < (isqrt(n) + 1) * (isqrt(n) + 1));
        }
    }
}

/// Any `r` within the characteristic bounds is the integer square root.
pub proof fn lemma_isqrt_unique(n: nat, r: nat)
    requires
        r * r <= n,
        n < (r + 1) * (r + 1),
    ensures
        r == isqrt(n),
{
    lemma_isqrt_bounds(n);
    let s = isqrt(n);
    if r < s {
        lemma_mul_inequality(r as int + 1, s as int, r as int + 1);
        lemma_mul_inequality(r as int + 1, s as int, s as int);
        assert(false);
    }
    if s < r {
        lemma_mul_inequality(s as int + 1, r as int, s as int + 1);
        lemma_mul_inequality(s as int + 1, r as int, r as int);
        assert(false);
    }
}

/// Executable integer square root by bisection.
pub fn isqrt_u64(n: u64) -> (r: u64)
    requires
        n < 0x4000_0000_0000_0000,
    ensures
        r == isqrt(n as nat),
        r * r <= n,
        n < (r + 1) * (r + 1),
{
    let mut lo: u64 = 0;
    let mut hi: u64 = 0x8000_0000;
    assert(0x8000_0000 * 0x8000_0000 == 0x4000_0000_0000_0000int) by (nonlinear_arith);
    while hi - lo > 1
        invariant
            lo < hi <= 0x8000_0000,
            lo * lo <= n,
            n < hi * hi,
        decreases hi - lo,
    {
        let mid: u64 = lo + (hi - lo) / 2;
        assert(mid * mid <= 0x4000_0000_0000_0000) by (nonlinear_arith)
            requires
                0 <= mid <= 0x8000_0000u64,
        ;
        if mid * mid <= n {
            lo = mid;
        } else {
            hi = mid;
        }
    }
    proof {
        lemma_isqrt_unique(n as nat, lo as nat);
        lemma_isqrt_bounds(n as nat);
    }
    lo
}

/// Floor division by a positive divisor; agrees with the `/` of the
/// specification integers, which rounds toward negative infinity for a
/// positive divisor.
pub fn div_floor_i64(a: i64, b: i64) -> (q: i64)
    requires
        1 <= b,
        i64::MIN < a,
    ensures
        q == a as int / b as int,
{
    if a >= 0 {
        let q0: u64 = (a as u64) / (b as u64);
        proof {
            assert(q0 <= a);
        }
        q0 as i64
    } else {
        let m: u64 = (-a) as u64;
        let q0: u64 = m / (b as u64);
        let r0: u64 = m % (b as u64);
        proof {
            assert(m as int == q0 as int * b as int + r0 as int) by {
                lemma_fundamental_div_mod(m as int, b as int);
            }
            if r0 == 0 {
                assert(a as int == (-(q0 as int)) * b as int + 0) by (nonlinear_arith)
                    requires
                        a as int == -(m as int),
                        m as int == q0 as int * b as int + r0 as int,
                        r0 == 0,
                ;
                lemma_fundamental_div_mod_converse(a as int, b as int, -(q0 as int), 0);
            } else {
                assert(a as int == (-(q0 as int) - 1) * b as int + (b as int - r0 as int)) by {
                    assert((-(q0 as int) - 1) * b as int == -(q0 as int * b as int) - b as int)
                        by (nonlinear_arith);
                }
                lemma_fundamental_div_mod_converse(
                    a as int,
                    b as int,
                    -(q0 as int) - 1,
                    b as int - r0 as int,
                );
            }
        }
        if r0 == 0 {
            -(q0 as i64)
        } else {
            -(q0 as i64) - 1
        }
    }
}

/// Floor division for the wide intermediate products of pose composition;
/// agrees with the `/` of the specification integers for a positive divisor.
pub fn div_floor_i128(a: i128, b: i128) -> (q: i128)
    requires
        1 <= b,
        i128::MIN < a,
    ensures
        q == a as int / b as int,
{
    if a >= 0 {
        let q0: u128 = (a as u128) / (b as u128);
        proof {
            assert(q0 <= a);
        }
        q0 as i128
    } else {
        let m: u128 = (-a) as u128;
        let q0: u128 = m / (b as u128);
        let r0: u128 = m % (b as u128);
        proof {
            assert(m as int == q0 as int * b as int + r0 as int) by {
                lemma_fundamental_div_mod(m as int, b as int);
            }
            assert(q0 as int * b as int <= m as int) by (nonlinear_arith)
                requires
                    m as int == q0 as int * b as int + r0 as int,
                    r0 >= 0,
            ;
            if r0 == 0 {
                assert(a as int == (-(q0 as int)) * b as int + 0) by (nonlinear_arith)
                    requires
                        a as int == -(m as int),
                        m as int == q0 as int * b as int + r0 as int,
                        r0 == 0,
                ;
                lemma_fundamental_div_mod_converse(a as int, b as int, -(q0 as int), 0);
            } else {
                assert(a as int == (-(q0 as int) - 1) * b as int + (b as int - r0 as int)) by (
                nonlinear_arith)
                    requires
                        a as int == -(m as int),
                        m as int == q0 as int * b as int + r0 as int,
                ;
                lemma_fundamental_div_mod_converse(
                    a as int,
                    b as int,
                    -(q0 as int) - 1,
                    b as int - r0 as int,
                );
            }
        }
        if r0 == 0 {
            -(q0 as i128)
        } else {
            -(q0 as i128) - 1
        }
    }
}

/// Wrapping into [-HALF_TURN_MDEG, HALF_TURN_MDEG): the representative of the
/// same angle modulo a full turn.
pub open spec fn wrap_mdeg(a: int) -> int {
    (a + 180_000) % 360_000 - 180_000
}

/// Wrapping keeps the angle class: the result differs from the input by a
/// whole number of turns.
pub proof fn lemma_wrap_mdeg_class(a: int)
    ensures
        -180_000 <= wrap_mdeg(a) < 180_000,
        (wrap_mdeg(a) - a) % 360_000 == 0,
{
    lemma_fundamental_div_mod(a + 180_000, 360_000);
    let q = (a + 180_000) / 360_000;
    assert(wrap_mdeg(a) - a == (-q) * 360_000) by (nonlinear_arith)
        requires
            a + 180_000 == q * 360_000 + (a + 180_000) % 360_000,
            wrap_mdeg(a) == (a + 180_000) % 360_000 - 180_000,
    ;
    vstd::arithmetic::div_mod::lemma_mod_multiples_basic(-q, 360_000);
}

/// Executable angle wrap, exactly `wrap_mdeg`.
pub fn wrap_angle_mdeg(a: i64) -> (r: i64)
    requires
        -0x7000_0000_0000_0000 < a < 0x7000_0000_0000_0000,
    ensures
        r == wrap_mdeg(a as int),
        -HALF_TURN_MDEG <= r < HALF_TURN_MDEG,
{
    let shifted: i64 = a + HALF_TURN_MDEG;
    let q: i64 = div_floor_i64(shifted, FULL_TURN_MDEG);
    proof {
        lemma_fundamental_div_mod(shifted as int, 360_000);
        vstd::arithmetic::div_mod::lemma_mod_bound(shifted as int, 360_000);
        assert(q * 360_000 == shifted - shifted as int % 360_000);
        assert(-0x7100_0000_0000_0000int < q * 360_000 < 0x7100_0000_0000_0000int);
    }
    let rem: i64 = shifted - q * FULL_TURN_MDEG;
    rem - HALF_TURN_MDEG
}

} // verus!
