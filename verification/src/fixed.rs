//! Saturating fixed-point arithmetic on `i64` raw values.
//!
//! A scalar is an `i64` holding `SCALE` raw units per 1.0. The scale is
//! divisible by 2 and 3 and by 10^6, so the halves, thirds and the six-digit
//! quadrature constants used by the curve code are all exact. Products and
//! quotients round toward zero, as Rust's integer `/` does, and every
//! operation clamps its result to the `i64` range, so all operations are
//! total: there is no overflow and no division-by-zero failure.

use vstd::prelude::*;
use vstd::arithmetic::div_mod::{
    lemma_div_multiples_vanish, lemma_div_nonincreasing, lemma_div_pos_is_pos,
};

verus! {

/// Raw units per 1.0 of the fixed-point scale.
pub const SCALE: i64 = 3_000_000;

/// Fixed number of Newton-Raphson iterations used to invert arc length.
pub const NEWTON_ITERATIONS: u32 = 10;

/// Clamp an unbounded integer to the `i64` range.
pub open spec fn sat64(x: int) -> int {
    if x > i64::MAX {
        i64::MAX as int
    } else if x < i64::MIN {
        i64::MIN as int
    } else {
        x
    }
}

/// Division rounding toward zero, as Rust's `/` computes it on machine
/// integers (the spec-level `/` on `int` is Euclidean instead).
pub open spec fn tdiv(x: int, d: int) -> int
    recommends
        d != 0,
{
    if x == 0 {
        0
    } else if x > 0 && d > 0 {
        x / d
    } else if x < 0 && d < 0 {
        (x * -1) / (d * -1)
    } else if x < 0 {
        ((x * -1) / d) * -1
    } else {
        (x / (d * -1)) * -1
    }
}

pub open spec fn fx_add(a: int, b: int) -> int {
    sat64(a + b)
}

pub open spec fn fx_sub(a: int, b: int) -> int {
    sat64(a - b)
}

pub open spec fn fx_neg(a: int) -> int {
    sat64(-a)
}

/// Fixed-point product: `a * b` rescaled by `SCALE`, rounded toward zero.
pub open spec fn fx_mul(a: int, b: int) -> int {
    sat64(tdiv(a * b, SCALE as int))
}

/// Fixed-point quotient: `a / b` rescaled by `SCALE`, rounded toward zero.
/// A zero divisor yields zero, the degenerate (not erroneous) result.
pub open spec fn fx_div(a: int, b: int) -> int {
    if b == 0 {
        0
    } else {
        sat64(tdiv(a * (SCALE as int), b))
    }
}

/// The magnitude of truncating division never exceeds the magnitude of the
/// dividend, for any nonzero divisor.
pub proof fn lemma_tdiv_magnitude(x: int, d: int)
    requires
        d != 0,
    ensures
        tdiv(x, d) <= (if x >= 0 { x } else { x * -1 }),
        tdiv(x, d) >= (if x >= 0 { x * -1 } else { x }),
{
    let dd = if d > 0 { d } else { d * -1 };
    let xx = if x >= 0 { x } else { x * -1 };
    if x != 0 {
        lemma_div_pos_is_pos(xx, dd);
        lemma_div_nonincreasing(xx, dd);
    }
}

/// Truncating division is exact on multiples of the divisor.
pub proof fn lemma_tdiv_exact(k: int, d: int)
    requires
        d > 0,
    ensures
        tdiv(k * d, d) == k,
{
    if k == 0 {
        assert(k * d == 0);
    } else if k > 0 {
        lemma_div_multiples_vanish(k, d);
        assert(k * d > 0) by (nonlinear_arith)
            requires
                k > 0,
                d > 0,
        ;
        assert(d * k == k * d) by (nonlinear_arith);
    } else {
        lemma_div_multiples_vanish(-k, d);
        assert(k * d < 0) by (nonlinear_arith)
            requires
                k < 0,
                d > 0,
        ;
        assert((k * d) * -1 == d * (-k)) by (nonlinear_arith);
    }
}

/// On a nonnegative dividend and a positive divisor, truncating division is
/// the Euclidean quotient: nonnegative and at most the dividend.
pub proof fn lemma_tdiv_nonneg(x: int, d: int)
    requires
        x >= 0,
        d > 0,
    ensures
        tdiv(x, d) == x / d,
        0 <= tdiv(x, d) <= x,
{
    lemma_div_pos_is_pos(x, d);
    lemma_div_nonincreasing(x, d);
    if x == 0 {
        lemma_div_pos_is_pos(0, d);
        lemma_div_nonincreasing(0, d);
    }
}

/// Scaling by a whole number of units is exact, up to clamping: multiplying
/// by `k * SCALE` is multiplying by the integer `k`.
pub proof fn lemma_fx_mul_whole(a: int, k: int)
    ensures
        fx_mul(a, k * (SCALE as int)) == sat64(a * k),
{
    assert(a * (k * (SCALE as int)) == (a * k) * (SCALE as int)) by (nonlinear_arith);
    lemma_tdiv_exact(a * k, SCALE as int);
}

/// A zero numerator divides to zero, whatever the divisor.
pub proof fn lemma_fx_div_zero(b: int)
    ensures
        fx_div(0, b) == 0,
{
}

/// A zero factor multiplies to zero, whatever the other factor.
pub proof fn lemma_fx_mul_zero_left_all()
    ensures
        forall|b: int| #[trigger] fx_mul(0, b) == 0,
{
    assert forall|b: int| #[trigger] fx_mul(0, b) == 0 by {
        assert(0 * b == 0) by (nonlinear_arith);
    }
}

fn clamp_to_i64(x: i128) -> (r: i64)
    ensures
        r as int == sat64(x as int),
{
    if x > i64::MAX as i128 {
        i64::MAX
    } else if x < i64::MIN as i128 {
        i64::MIN
    } else {
        x as i64
    }
}

/// Saturating fixed-point addition.
pub fn fixed_add(a: i64, b: i64) -> (r: i64)
    ensures
        r as int == fx_add(a as int, b as int),
{
    clamp_to_i64(a as i128 + b as i128)
}

/// Saturating fixed-point subtraction.
pub fn fixed_sub(a: i64, b: i64) -> (r: i64)
    ensures
        r as int == fx_sub(a as int, b as int),
{
    clamp_to_i64(a as i128 - b as i128)
}

/// Saturating fixed-point negation.
pub fn fixed_neg(a: i64) -> (r: i64)
    ensures
        r as int == fx_neg(a as int),
{
    if a == i64::MIN {
        i64::MAX
    } else {
        -a
    }
}

/// Saturating fixed-point multiplication, rounding toward zero.
pub fn fixed_mul(a: i64, b: i64) -> (r: i64)
    ensures
        r as int == fx_mul(a as int, b as int),
{
    proof {
        assert(i128::MIN <= (a as int) * (b as int) <= i128::MAX) by (nonlinear_arith)
            requires
                i64::MIN <= a as int <= i64::MAX,
                i64::MIN <= b as int <= i64::MAX,
        ;
    }
    let p: i128 = (a as i128) * (b as i128);
    proof {
        lemma_tdiv_magnitude(p as int, SCALE as int);
    }
    let q: i128 = match p.checked_div(SCALE as i128) {
        Some(q) => q,
        None => 0,  // unreachable: the divisor is a positive constant
    };
    proof {
        assert(q as int == tdiv(p as int, SCALE as int));
    }
    clamp_to_i64(q)
}

/// Saturating fixed-point division, rounding toward zero. A zero divisor
/// yields zero.
pub fn fixed_div(a: i64, b: i64) -> (r: i64)
    ensures
        r as int == fx_div(a as int, b as int),
{
    if b == 0 {
        return 0;
    }
    proof {
        assert(i128::MIN <= (a as int) * (SCALE as int) <= i128::MAX) by (nonlinear_arith)
            requires
                i64::MIN <= a as int <= i64::MAX,
                SCALE as int == 3_000_000,
        ;
    }
    let n: i128 = (a as i128) * (SCALE as i128);
    proof {
        lemma_tdiv_magnitude(n as int, b as int);
    }
    let q: i128 = match n.checked_div(b as i128) {
        Some(q) => q,
        None => 0,  // unreachable: the divisor is nonzero and the quotient fits
    };
    proof {
        assert(q as int == tdiv(n as int, b as int));
    }
    clamp_to_i64(q)
}

/// Largest `r >= 0` with `r * r <= n` (zero for negative `n`).
pub open spec fn sqrt_floor(n: int) -> int
    decreases n,
{
    if n < 1 {
        0
    } else {
        let r = sqrt_floor(n - 1);
        if (r + 1) * (r + 1) <= n {
            r + 1
        } else {
            r
        }
    }
}

/// `sqrt_floor` is the integer square root: its square is at most `n` and
/// the next square is beyond `n`.
pub proof fn lemma_sqrt_floor(n: int)
    requires
        n >= 0,
    ensures
        sqrt_floor(n) >= 0,
        sqrt_floor(n) * sqrt_floor(n) <= n,
        n < (sqrt_floor(n) + 1) * (sqrt_floor(n) + 1),
    decreases n,
{
    if n == 0 {
    } else {
        lemma_sqrt_floor(n - 1);
        let r = sqrt_floor(n - 1);
        if (r + 1) * (r + 1) <= n {
            assert(n < (r + 2) * (r + 2)) by (nonlinear_arith)
                requires
                    r >= 0,
                    n - 1 < (r + 1) * (r + 1),
                    (r + 1) * (r + 1) <= n,
            ;
        }
    }
}

/// The integer square root is the unique `r` between the two squares.
pub proof fn lemma_sqrt_floor_unique(n: int, r: int)
    requires
        n >= 0,
        r >= 0,
        r * r <= n,
        n < (r + 1) * (r + 1),
    ensures
        r == sqrt_floor(n),
{
    lemma_sqrt_floor(n);
    let s = sqrt_floor(n);
    assert(r == s) by (nonlinear_arith)
        requires
            r >= 0,
            s >= 0,
            r * r <= n,
            n < (r + 1) * (r + 1),
            s * s <= n,
            n < (s + 1) * (s + 1),
    ;
}

/// Integer square root by bisection.
pub fn isqrt_u128(n: u128) -> (r: u64)
    ensures
        r as int == sqrt_floor(n as int),
{
    let mut lo: u128 = 0;
    let mut hi: u128 = 0x1_0000_0000_0000_0000;
    proof {
        assert((hi as int) * (hi as int) > n as int) by (nonlinear_arith)
            requires
                hi as int == 0x1_0000_0000_0000_0000,
                n as int <= u128::MAX,
        ;
    }
    while lo + 1 < hi
        invariant
            lo < hi <= 0x1_0000_0000_0000_0000,
            (lo as int) * (lo as int) <= n as int,
            (hi as int) * (hi as int) > n as int,
        decreases hi - lo,
    {
        let mid: u128 = lo + (hi - lo) / 2;
        proof {
            assert((mid as int) * (mid as int) <= u128::MAX) by (nonlinear_arith)
                requires
                    mid as int <= 0xffff_ffff_ffff_ffff,
                    mid >= 0,
            ;
        }
        if mid * mid <= n {
            lo = mid;
        } else {
            hi = mid;
        }
    }
    proof {
        assert((hi as int) * (hi as int) <= (lo + 1) * (lo + 1)) by (nonlinear_arith)
            requires
                0 <= hi as int <= lo as int + 1,
        ;
        lemma_sqrt_floor_unique(n as int, lo as int);
        assert(lo as int <= 0xffff_ffff_ffff_ffff);
    }
    lo as u64
}

} // verus!
