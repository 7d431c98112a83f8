//! Integer arithmetic helpers of the engine: truncating division,
//! saturation at the coordinate bound, and integer square and cube roots,
//! each with a specification-level counterpart.

use vstd::arithmetic::div_mod::{lemma_div_nonincreasing, lemma_div_pos_is_pos};
use vstd::prelude::*;

use crate::config::COORD_LIMIT;

verus! {

/// Division truncating toward zero, the rounding that the engine's
/// fixed-point ratios use.
pub open spec fn tdiv(a: int, b: int) -> int
    recommends
        b > 0,
{
    if a >= 0 {
        a / b
    } else {
        -((-a) / b)
    }
}

/// Saturation of a value at the coordinate band `[-COORD_LIMIT, COORD_LIMIT]`.
pub open spec fn clamp(v: int) -> int {
    if v < -(COORD_LIMIT as int) {
        -(COORD_LIMIT as int)
    } else if v > COORD_LIMIT as int {
        COORD_LIMIT as int
    } else {
        v
    }
}

/// `clamp` always lands inside the coordinate band.
pub proof fn lemma_clamp_in_band(v: int)
    ensures
        -(COORD_LIMIT as int) <= clamp(v) <= COORD_LIMIT as int,
        -(COORD_LIMIT as int) <= v <= COORD_LIMIT as int ==> clamp(v) == v,
{
}

/// Bounds of truncating division: `b * tdiv(a, b)` differs from `a` by less
/// than `b` and never overshoots `a` away from zero.
pub proof fn lemma_tdiv_bounds(a: int, b: int)
    requires
        b > 0,
    ensures
        a - b < b * tdiv(a, b) && b * tdiv(a, b) < a + b,
        a >= 0 ==> 0 <= tdiv(a, b) && b * tdiv(a, b) <= a && tdiv(a, b) <= a,
        a <= 0 ==> tdiv(a, b) <= 0 && a <= b * tdiv(a, b) && a <= tdiv(a, b),
{
    if a >= 0 {
        assert(b * (a / b) <= a && a < b * (a / b) + b && 0 <= a / b && a / b <= a)
            by (nonlinear_arith)
            requires
                a >= 0 && b > 0,
        ;
    } else {
        let m = -a;
        assert(b * (m / b) <= m && m < b * (m / b) + b && 0 <= m / b && m / b <= m)
            by (nonlinear_arith)
            requires
                m > 0 && b > 0,
        ;
        assert(b * (-(m / b)) == -(b * (m / b))) by (nonlinear_arith);
    }
}

/// Truncating division is odd in its numerator: negating `a` negates the
/// quotient exactly.
pub proof fn lemma_tdiv_neg(a: int, b: int)
    requires
        b > 0,
    ensures
        tdiv(-a, b) == -tdiv(a, b),
{
}

/// The integer square root: the largest `r` with `r * r <= n`.
pub open spec fn sqrt_floor(n: int) -> int
    decreases n,
{
    if n <= 0 {
        0
    } else {
        let p = sqrt_floor(n - 1);
        if (p + 1) * (p + 1) <= n {
            p + 1
        } else {
            p
        }
    }
}

/// `sqrt_floor(n)` squares to at most `n`, and is the largest such value.
pub proof fn lemma_sqrt_floor_bounds(n: int)
    requires
        n >= 0,
    ensures
        0 <= sqrt_floor(n),
        sqrt_floor(n) * sqrt_floor(n) <= n,
        n < (sqrt_floor(n) + 1) * (sqrt_floor(n) + 1),
    decreases n,
{
    if n > 0 {
        lemma_sqrt_floor_bounds(n - 1);
        let p = sqrt_floor(n - 1);
        if (p + 1) * (p + 1) <= n {
            assert((p + 1) * (p + 1) < (p + 2) * (p + 2)) by (nonlinear_arith)
                requires
                    p >= 0,
            ;
        }
    }
}

/// Any `r` whose square brackets `n` is the integer square root of `n`.
pub proof fn lemma_sqrt_floor_unique(n: int, r: int)
    requires
        n >= 0,
        r >= 0,
        r * r <= n,
        n < (r + 1) * (r + 1),
    ensures
        r == sqrt_floor(n),
{
    lemma_sqrt_floor_bounds(n);
    let s = sqrt_floor(n);
    if r < s {
        assert((r + 1) * (r + 1) <= s * s) by (nonlinear_arith)
            requires
                0 <= r && r < s,
        ;
    }
    if s < r {
        assert((s + 1) * (s + 1) <= r * r) by (nonlinear_arith)
            requires
                0 <= s && s < r,
        ;
    }
}

/// The integer cube root: the largest `r` with `r * r * r <= n`.
pub open spec fn cbrt_floor(n: int) -> int
    decreases n,
{
    if n <= 0 {
        0
    } else {
        let p = cbrt_floor(n - 1);
        if (p + 1) * (p + 1) * (p + 1) <= n {
            p + 1
        } else {
            p
        }
    }
}

/// `cbrt_floor(n)` cubes to at most `n`, and is the largest such value.
pub proof fn lemma_cbrt_floor_bounds(n: int)
    requires
        n >= 0,
    ensures
        0 <= cbrt_floor(n),
        cbrt_floor(n) * cbrt_floor(n) * cbrt_floor(n) <= n,
        n < (cbrt_floor(n) + 1) * (cbrt_floor(n) + 1) * (cbrt_floor(n) + 1),
    decreases n,
{
    if n > 0 {
        lemma_cbrt_floor_bounds(n - 1);
        let p = cbrt_floor(n - 1);
        if (p + 1) * (p + 1) * (p + 1) <= n {
            assert((p + 1) * (p + 1) * (p + 1) < (p + 2) * (p + 2) * (p + 2)) by (nonlinear_arith)
                requires
                    p >= 0,
            ;
        }
    }
}

/// Any `r` whose cube brackets `n` is the integer cube root of `n`.
pub proof fn lemma_cbrt_floor_unique(n: int, r: int)
    requires
        n >= 0,
        r >= 0,
        r * r * r <= n,
        n < (r + 1) * (r + 1) * (r + 1),
    ensures
        r == cbrt_floor(n),
{
    lemma_cbrt_floor_bounds(n);
    let s = cbrt_floor(n);
    if r < s {
        assert((r + 1) * (r + 1) * (r + 1) <= s * s * s) by (nonlinear_arith)
            requires
                0 <= r && r < s,
        ;
    }
    if s < r {
        assert((s + 1) * (s + 1) * (s + 1) <= r * r * r) by (nonlinear_arith)
            requires
                0 <= s && s < r,
        ;
    }
}

/// Integer square root of a 128-bit value by bisection.
pub fn isqrt_u128(n: u128) -> (r: u64)
    ensures
        r as int == sqrt_floor(n as int),
        (r as int) * (r as int) <= n as int,
        (n as int) < (r as int + 1) * (r as int + 1),
{
    let mut lo: u128 = 0;
    let mut hi: u128 = 0x1_0000_0000_0000_0000;
    while lo + 1 < hi
        invariant
            lo < hi,
            hi <= 0x1_0000_0000_0000_0000u128,
            (lo as int) * (lo as int) <= n as int,
            (n as int) < (hi as int) * (hi as int),
        decreases hi - lo,
    {
        let mid = lo + (hi - lo) / 2;
        proof {
            assert((mid as int) * (mid as int) < 0x1_0000_0000_0000_0000_0000_0000_0000_0000int)
                by (nonlinear_arith)
                requires
                    (mid as int) < 0x1_0000_0000_0000_0000int && mid >= 0,
            ;
        }
        if mid * mid <= n {
            lo = mid;
        } else {
            hi = mid;
        }
    }
    proof {
        lemma_sqrt_floor_unique(n as int, lo as int);
    }
    lo as u64
}

/// Integer cube root of a 64-bit value by bisection.
pub fn icbrt_u64(n: u64) -> (r: u64)
    ensures
        r as int == cbrt_floor(n as int),
        (r as int) * (r as int) * (r as int) <= n as int,
        (n as int) < (r as int + 1) * (r as int + 1) * (r as int + 1),
{
    let mut lo: u64 = 0;
    let mut hi: u64 = 0x40_0000;
    proof {
        assert((0x40_0000int) * (0x40_0000int) * (0x40_0000int) > u64::MAX as int);
    }
    while lo + 1 < hi
        invariant
            lo < hi,
            hi <= 0x40_0000u64,
            (lo as int) * (lo as int) * (lo as int) <= n as int,
            (n as int) < (hi as int) * (hi as int) * (hi as int),
        decreases hi - lo,
    {
        let mid = lo + (hi - lo) / 2;
        let m = mid as u128;
        proof {
            assert((m as int) * (m as int) <= 0x1000_0000_0000int) by (nonlinear_arith)
                requires
                    (m as int) <= 0x40_0000int && m >= 0,
            ;
            assert((m as int) * (m as int) * (m as int) < 0x80_0000_0000_0000_0000int)
                by (nonlinear_arith)
                requires
                    (m as int) <= 0x40_0000int && m >= 0,
            ;
        }
        let cube = m * m * m;
        if cube <= n as u128 {
            lo = mid;
        } else {
            hi = mid;
        }
    }
    proof {
        lemma_cbrt_floor_unique(n as int, lo as int);
    }
    lo
}

/// Division of an `i128` truncating toward zero.
pub fn tdiv_i128(a: i128, b: i128) -> (q: i128)
    requires
        b > 0,
        a > i128::MIN,
    ensures
        q as int == tdiv(a as int, b as int),
{
    if a >= 0 {
        let q = (a as u128) / (b as u128);
        proof {
            lemma_div_nonincreasing(a as int, b as int);
            lemma_div_pos_is_pos(a as int, b as int);
        }
        q as i128
    } else {
        let m = -a;
        let q = (m as u128) / (b as u128);
        proof {
            lemma_div_nonincreasing(m as int, b as int);
            lemma_div_pos_is_pos(m as int, b as int);
        }
        -(q as i128)
    }
}

/// Saturation of an `i128` into the `i64`-held coordinate band.
pub fn clamp_i128(v: i128) -> (r: i64)
    ensures
        r as int == clamp(v as int),
{
    if v < -(COORD_LIMIT as i128) {
        -COORD_LIMIT
    } else if v > COORD_LIMIT as i128 {
        COORD_LIMIT
    } else {
        v as i64
    }
}

} // verus!
