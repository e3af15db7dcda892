//! Fixed-point scalars.
//!
//! The simulation measures every quantity in thousandths: a `Real` is an
//! `i64` holding `1000` times the intended value, so `1500` stands for `1.5`.
//! Multiplication and division rescale by `SCALE` and truncate toward zero;
//! every operation clamps to the `i64` range instead of overflowing, and the
//! spec functions below state the result of each operation exactly.

use vstd::arithmetic::div_mod::{lemma_div_is_ordered, lemma_div_multiples_vanish};
use vstd::arithmetic::mul::{lemma_mul_inequality, lemma_mul_nonnegative};
use vstd::prelude::*;

verus! {

/// The scalar type of the simulation: a fixed-point real with three decimal
/// places, stored as the underlying integer (`1000` means `1.0`).
pub type Real = i64;

/// Number of fixed-point units in `1.0`.
pub const SCALE: i64 = 1000;

/// Clamp a mathematical integer into the `i64` range.
pub open spec fn clip64(x: int) -> int {
    if x > i64::MAX as int {
        i64::MAX as int
    } else if x < i64::MIN as int {
        i64::MIN as int
    } else {
        x
    }
}

/// Division truncating toward zero, for a positive divisor. This is the
/// rounding the executable operations use, stated over `int`.
pub open spec fn divt(a: int, b: int) -> int
    recommends
        b > 0,
{
    if a >= 0 {
        a / b
    } else {
        -((-a) / b)
    }
}

/// Saturating fixed-point addition.
pub open spec fn radd(a: int, b: int) -> int {
    clip64(a + b)
}

/// Saturating fixed-point subtraction.
pub open spec fn rsub(a: int, b: int) -> int {
    clip64(a - b)
}

/// Saturating fixed-point negation.
pub open spec fn rneg(a: int) -> int {
    clip64(-a)
}

/// Saturating fixed-point multiplication: rescales the double-width product
/// back down by `SCALE`, truncating toward zero.
pub open spec fn rmul(a: int, b: int) -> int {
    clip64(divt(a * b, SCALE as int))
}

/// Saturating fixed-point division by a positive scalar.
pub open spec fn rdiv(a: int, b: int) -> int
    recommends
        b > 0,
{
    clip64(divt(a * SCALE, b))
}

/// Clamp a double-width value into the `i64` range.
fn clamp_i128(x: i128) -> (r: i64)
    ensures
        r as int == clip64(x as int),
{
    if x > i64::MAX as i128 {
        i64::MAX
    } else if x < i64::MIN as i128 {
        i64::MIN
    } else {
        x as i64
    }
}

/// Double-width division truncating toward zero, for a positive divisor.
fn divt_i128(n: i128, d: i128) -> (q: i128)
    requires
        d > 0,
        n > i128::MIN,
    ensures
        q as int == divt(n as int, d as int),
{
    if n >= 0 {
        let nu = n as u128;
        let du = d as u128;
        let qu = nu / du;
        proof {
            lemma_div_is_ordered(qu as int, nu as int, 1);
            assert(qu as int <= nu as int);
        }
        qu as i128
    } else {
        let nu = (-n) as u128;
        let du = d as u128;
        let qu = nu / du;
        proof {
            lemma_div_is_ordered(qu as int, nu as int, 1);
            assert(qu as int <= nu as int);
        }
        -(qu as i128)
    }
}

/// Fixed-point addition, clamped to the `i64` range.
pub fn real_add(a: Real, b: Real) -> (r: Real)
    ensures
        r as int == radd(a as int, b as int),
{
    clamp_i128(a as i128 + b as i128)
}

/// Fixed-point subtraction, clamped to the `i64` range.
pub fn real_sub(a: Real, b: Real) -> (r: Real)
    ensures
        r as int == rsub(a as int, b as int),
{
    clamp_i128(a as i128 - b as i128)
}

/// Fixed-point negation, clamped to the `i64` range.
pub fn real_neg(a: Real) -> (r: Real)
    ensures
        r as int == rneg(a as int),
{
    clamp_i128(-(a as i128))
}

/// Fixed-point multiplication, truncating toward zero and clamped to the
/// `i64` range.
pub fn real_mul(a: Real, b: Real) -> (r: Real)
    ensures
        r as int == rmul(a as int, b as int),
{
    proof {
        lemma_mul_bound_i64(a as int, b as int);
    }
    let p = a as i128 * b as i128;
    let q = divt_i128(p, SCALE as i128);
    clamp_i128(q)
}

/// Fixed-point division by a positive scalar, truncating toward zero and
/// clamped to the `i64` range.
pub fn real_div(a: Real, b: Real) -> (r: Real)
    requires
        b > 0,
    ensures
        r as int == rdiv(a as int, b as int),
{
    proof {
        lemma_mul_bound_i64(a as int, SCALE as int);
    }
    let p = a as i128 * SCALE as i128;
    let q = divt_i128(p, b as i128);
    clamp_i128(q)
}

/// The product of two `i64` values stays well inside the `i128` range.
proof fn lemma_mul_bound_i64(a: int, b: int)
    requires
        i64::MIN <= a <= i64::MAX,
        i64::MIN <= b <= i64::MAX,
    ensures
        -0x4000_0000_0000_0000_0000_0000_0000_0000 <= a * b
            <= 0x4000_0000_0000_0000_0000_0000_0000_0000,
{
    assert(-0x4000_0000_0000_0000_0000_0000_0000_0000 <= a * b
        <= 0x4000_0000_0000_0000_0000_0000_0000_0000) by (nonlinear_arith)
        requires
            -0x8000_0000_0000_0000 <= a <= 0x7fff_ffff_ffff_ffff,
            -0x8000_0000_0000_0000 <= b <= 0x7fff_ffff_ffff_ffff,
    ;
}

/// Truncating division undoes an exact multiple.
pub proof fn lemma_divt_multiple(x: int, d: int)
    requires
        d > 0,
    ensures
        divt(x * d, d) == x,
{
    if x >= 0 {
        lemma_mul_nonnegative(x, d);
        lemma_div_multiples_vanish(x, d);
        assert(d * x == x * d) by (nonlinear_arith);
    } else {
        assert(x * d < 0) by (nonlinear_arith)
            requires
                x < 0,
                d > 0,
        ;
        assert(-(x * d) == (-x) * d) by (nonlinear_arith);
        lemma_div_multiples_vanish(-x, d);
        assert(d * (-x) == (-x) * d) by (nonlinear_arith);
    }
}

/// Multiplying by one (`SCALE` in fixed-point units) changes nothing, for
/// values in the `i64` range.
pub proof fn lemma_rmul_one(a: int)
    requires
        i64::MIN <= a <= i64::MAX,
    ensures
        rmul(a, SCALE as int) == a,
        rmul(SCALE as int, a) == a,
{
    lemma_divt_multiple(a, SCALE as int);
    assert(a * SCALE == SCALE * a) by (nonlinear_arith);
}

/// Multiplying by zero gives zero.
pub proof fn lemma_rmul_zero(a: int)
    ensures
        rmul(a, 0) == 0,
        rmul(0, a) == 0,
{
    assert(a * 0 == 0) by (nonlinear_arith);
    assert(0 * a == 0) by (nonlinear_arith);
}

/// What it means for `r` to be the integer square root of `n`.
pub open spec fn is_sqrt_of(n: int, r: int) -> bool {
    0 <= r && r * r <= n && n < (r + 1) * (r + 1)
}

/// The integer square root (the floor of the real square root).
pub open spec fn sqrt_floor(n: int) -> int
    recommends
        n >= 0,
{
    choose|r: int| is_sqrt_of(n, r)
}

/// Exhibits an integer square root for any nonnegative integer.
proof fn sqrt_witness(n: int) -> (r: int)
    requires
        n >= 0,
    ensures
        is_sqrt_of(n, r),
    decreases n,
{
    if n == 0 {
        assert(is_sqrt_of(0, 0));
        0
    } else {
        let p = sqrt_witness(n - 1);
        if (p + 1) * (p + 1) <= n {
            assert(n - 1 < (p + 1) * (p + 1));
            assert(n == (p + 1) * (p + 1));
            assert((p + 1) * (p + 1) < (p + 2) * (p + 2)) by (nonlinear_arith)
                requires
                    p >= 0,
            ;
            assert(is_sqrt_of(n, p + 1));
            p + 1
        } else {
            assert(p * p <= n);
            assert(n < (p + 1) * (p + 1));
            assert(is_sqrt_of(n, p));
            p
        }
    }
}

/// Every nonnegative integer has an integer square root, and `sqrt_floor`
/// denotes it.
pub proof fn lemma_sqrt_floor_exists(n: int)
    requires
        n >= 0,
    ensures
        is_sqrt_of(n, sqrt_floor(n)),
{
    let w = sqrt_witness(n);
    assert(is_sqrt_of(n, w));
    assert(is_sqrt_of(n, choose|r: int| is_sqrt_of(n, r)));
}

/// The integer square root is unique.
pub proof fn lemma_sqrt_floor_unique(n: int, r: int)
    requires
        is_sqrt_of(n, r),
    ensures
        r == sqrt_floor(n),
{
    lemma_mul_nonnegative(r, r);
    lemma_sqrt_floor_exists(n);
    let s = sqrt_floor(n);
    if r < s {
        lemma_mul_inequality(r + 1, s, r + 1);
        lemma_mul_inequality(r + 1, s, s);
        assert((r + 1) * (r + 1) <= s * s);
        assert(false);
    }
    if s < r {
        lemma_mul_inequality(s + 1, r, s + 1);
        lemma_mul_inequality(s + 1, r, r);
        assert((s + 1) * (s + 1) <= r * r);
        assert(false);
    }
}

/// Integer square root of a double-width value, by binary search.
pub(crate) fn isqrt_u128(n: u128) -> (r: u128)
    ensures
        is_sqrt_of(n as int, r as int),
{
    if n == 0 {
        return 0;
    }
    let mut lo: u128 = 0;
    let mut hi: u128 = 0x1_0000_0000_0000_0000;
    proof {
        assert((hi as int) * (hi as int) > u128::MAX as int) by (nonlinear_arith)
            requires
                hi == 0x1_0000_0000_0000_0000u128,
        ;
    }
    while lo + 1 < hi
        invariant
            0 <= lo < hi <= 0x1_0000_0000_0000_0000u128,
            (lo as int) * (lo as int) <= n as int,
            (n as int) < (hi as int) * (hi as int),
        decreases hi - lo,
    {
        let mid = lo + (hi - lo) / 2;
        proof {
            assert(lo < mid < hi);
            assert((mid as int) * (mid as int) <= u128::MAX as int) by (nonlinear_arith)
                requires
                    0 < mid < 0x1_0000_0000_0000_0000u128,
            ;
        }
        if mid * mid <= n {
            lo = mid;
        } else {
            hi = mid;
        }
    }
    lo
}

} // verus!
