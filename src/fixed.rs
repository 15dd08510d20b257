//! Fixed-point scalars: every length, speed, time and direction component is an
//! `i64` counting units of `1 / ONE`.
use vstd::prelude::*;

verus! {

/// The fixed-point unit: `ONE` stands for 1.0.
pub const ONE: i64 = 65536;

/// Largest magnitude of a tuning value or a time step.
pub const SETTING_MAX: i64 = 0x100_0000;

/// Largest magnitude of a velocity component.
pub const SPEED_MAX: i64 = 0x1_0000_0000;

/// Largest magnitude of a position component.
pub const POS_MAX: i64 = 0x100_0000_0000;

/// Division rounding toward zero, as integer division does at run time.
pub open spec fn div_trunc(p: int, d: int) -> int {
    if p >= 0 {
        p / d
    } else {
        -((-p) / d)
    }
}

/// The fixed-point product of `a` and `b`.
pub open spec fn fmul(a: int, b: int) -> int {
    div_trunc(a * b, ONE as int)
}

/// `x` held to `[lo, hi]`.
pub open spec fn clamp(x: int, lo: int, hi: int) -> int {
    if x < lo {
        lo
    } else if x > hi {
        hi
    } else {
        x
    }
}

pub open spec fn max(a: int, b: int) -> int {
    if a >= b {
        a
    } else {
        b
    }
}

pub open spec fn min(a: int, b: int) -> int {
    if a <= b {
        a
    } else {
        b
    }
}

/// `r` is the integer square root of `n`.
pub open spec fn is_isqrt(n: int, r: int) -> bool {
    0 <= r && r * r <= n && n < (r + 1) * (r + 1)
}

pub proof fn lemma_div_trunc_bound(p: int, d: int, m: int)
    requires
        d > 0,
        -(m * d) <= p <= m * d,
        m >= 0,
    ensures
        -m <= div_trunc(p, d) <= m,
{
    if p >= 0 {
        assert(p / d <= m) by (nonlinear_arith)
            requires
                d > 0,
                0 <= p <= m * d,
        ;
        assert(p / d >= 0) by (nonlinear_arith)
            requires
                d > 0,
                0 <= p,
        ;
    } else {
        assert((-p) / d <= m) by (nonlinear_arith)
            requires
                d > 0,
                0 <= -p <= m * d,
        ;
        assert((-p) / d >= 0) by (nonlinear_arith)
            requires
                d > 0,
                0 <= -p,
        ;
    }
}

/// Integer division of `p` by a positive `d`, rounding toward zero.
pub fn div_toward_zero(p: i128, d: i128) -> (r: i128)
    requires
        d > 0,
        p > i128::MIN,
    ensures
        r == div_trunc(p as int, d as int),
{
    if p >= 0 {
        p / d
    } else {
        let q = (-p) / d;
        -q
    }
}

/// The fixed-point product of a value of at most `2 * POS_MAX` and one of at
/// most `SETTING_MAX` in magnitude.
pub fn fx_mul(a: i64, b: i64) -> (r: i64)
    requires
        -2 * POS_MAX <= a <= 2 * POS_MAX,
        -SETTING_MAX <= b <= SETTING_MAX,
    ensures
        r == fmul(a as int, b as int),
{
    proof {
        lemma_mul_bound2(a as int, b as int, 2 * POS_MAX, SETTING_MAX as int);
    }
    let p = (a as i128) * (b as i128);
    let q = div_toward_zero(p, ONE as i128);
    proof {
        lemma_div_trunc_bound(p as int, ONE as int, 0x2_0000_0000_0000);
    }
    q as i64
}

proof fn lemma_mul_bound2(a: int, b: int, ma: int, mb: int)
    requires
        -ma <= a <= ma,
        -mb <= b <= mb,
    ensures
        -(ma * mb) <= a * b <= ma * mb,
{
    assert(-(ma * mb) <= a * b <= ma * mb) by (nonlinear_arith)
        requires
            -ma <= a <= ma,
            -mb <= b <= mb,
    ;
}

/// A bound on a fixed-point product from bounds on its factors.
pub proof fn lemma_fmul_bound(a: int, b: int, ma: int, mb: int)
    requires
        -ma <= a <= ma,
        -mb <= b <= mb,
    ensures
        -((ma * mb) / (ONE as int)) <= fmul(a, b) <= (ma * mb) / (ONE as int),
{
    lemma_mul_bound2(a, b, ma, mb);
    let p = a * b;
    let m = ma * mb;
    if p >= 0 {
        assert(p / (ONE as int) <= m / (ONE as int)) by (nonlinear_arith)
            requires
                0 <= p <= m,
        ;
        assert(p / (ONE as int) >= 0) by (nonlinear_arith)
            requires
                0 <= p,
        ;
    } else {
        assert((-p) / (ONE as int) <= m / (ONE as int)) by (nonlinear_arith)
            requires
                0 <= -p <= m,
        ;
        assert((-p) / (ONE as int) >= 0) by (nonlinear_arith)
            requires
                0 <= -p,
        ;
    }
}

/// The integer square root of `n`.
pub open spec fn sqrt_floor(n: int) -> int {
    choose|r: int| is_isqrt(n, r)
}

proof fn lemma_isqrt_unique(n: int, r1: int, r2: int)
    requires
        is_isqrt(n, r1),
        is_isqrt(n, r2),
    ensures
        r1 == r2,
{
    if r1 < r2 {
        assert((r1 + 1) * (r1 + 1) <= r2 * r2) by (nonlinear_arith)
            requires
                0 <= r1 < r2,
        ;
    } else if r2 < r1 {
        assert((r2 + 1) * (r2 + 1) <= r1 * r1) by (nonlinear_arith)
            requires
                0 <= r2 < r1,
        ;
    }
}

/// Every non-negative integer has an integer square root.
pub proof fn lemma_sqrt_floor_exists(n: int)
    requires
        n >= 0,
    ensures
        is_isqrt(n, sqrt_floor(n)),
    decreases n,
{
    if n == 0 {
        assert(is_isqrt(0, 0));
    } else {
        lemma_sqrt_floor_exists(n - 1);
        let r = sqrt_floor(n - 1);
        if n < (r + 1) * (r + 1) {
            assert(is_isqrt(n, r));
        } else {
            assert(n == (r + 1) * (r + 1));
            assert(n < (r + 2) * (r + 2)) by (nonlinear_arith)
                requires
                    n == (r + 1) * (r + 1),
                    r >= 0,
            ;
            assert(is_isqrt(n, r + 1));
        }
    }
}

/// Whatever witnesses `is_isqrt` is `sqrt_floor`.
pub proof fn lemma_sqrt_floor(n: int, r: int)
    requires
        is_isqrt(n, r),
    ensures
        sqrt_floor(n) == r,
{
    lemma_isqrt_unique(n, sqrt_floor(n), r);
}

/// The integer square root, by bisection.
pub fn isqrt(n: u128) -> (r: u64)
    requires
        n < 0x1_0000_0000_0000_0000_0000,
    ensures
        is_isqrt(n as int, r as int),
        r == sqrt_floor(n as int),
        r < 0x100_0000_0000,
{
    let mut lo: u128 = 0;
    let mut hi: u128 = 0x100_0000_0000;
    while hi - lo > 1
        invariant
            lo < hi <= 0x100_0000_0000,
            lo * lo <= n,
            n < hi * hi,
        decreases hi - lo,
    {
        let mid = lo + (hi - lo) / 2;
        assert(mid * mid <= 0x100_0000_0000 * 0x100_0000_0000) by (nonlinear_arith)
            requires
                mid <= 0x100_0000_0000,
        ;
        if mid * mid <= n {
            lo = mid;
        } else {
            hi = mid;
        }
    }
    assert(hi == lo + 1);
    proof {
        lemma_sqrt_floor(n as int, lo as int);
    }
    lo as u64
}

} // verus!
