//! An immutable 2D vector over fixed-point scalars: addition, subtraction,
//! scaling, linear interpolation and magnitude, each a total function.

use vstd::prelude::*;
use crate::fixed::{
    fixed_add, fixed_div, fixed_mul, fixed_neg, fixed_sub, fx_add, fx_div, fx_mul, fx_neg, fx_sub,
    isqrt_u128, lemma_sqrt_floor, sat64, sqrt_floor, SCALE,
};

verus! {

/// A 2D vector; each component is a fixed-point scalar of `SCALE` raw units
/// per 1.0.
#[derive(Clone, Copy, Debug, PartialEq, Eq, Structural)]
pub struct Vector2 {
    pub x: i64,
    pub y: i64,
}

impl View for Vector2 {
    type V = (int, int);

    open spec fn view(&self) -> (int, int) {
        (self.x as int, self.y as int)
    }
}

pub open spec fn v_add(a: (int, int), b: (int, int)) -> (int, int) {
    (fx_add(a.0, b.0), fx_add(a.1, b.1))
}

pub open spec fn v_sub(a: (int, int), b: (int, int)) -> (int, int) {
    (fx_sub(a.0, b.0), fx_sub(a.1, b.1))
}

pub open spec fn v_neg(a: (int, int)) -> (int, int) {
    (fx_neg(a.0), fx_neg(a.1))
}

pub open spec fn v_scale(a: (int, int), k: int) -> (int, int) {
    (fx_mul(a.0, k), fx_mul(a.1, k))
}

pub open spec fn v_div_scalar(a: (int, int), k: int) -> (int, int) {
    (fx_div(a.0, k), fx_div(a.1, k))
}

/// Interpolation `a*(1-t) + b*t`, computed as `b*t + a*(1-t)`.
pub open spec fn v_lerp(a: (int, int), b: (int, int), t: int) -> (int, int) {
    v_add(v_scale(b, t), v_scale(a, fx_sub(SCALE as int, t)))
}

/// Euclidean length, rounded down to the nearest raw unit.
pub open spec fn v_mag(a: (int, int)) -> int {
    sat64(sqrt_floor(a.0 * a.0 + a.1 * a.1))
}

/// A magnitude is never negative.
pub proof fn lemma_v_mag_nonneg(a: (int, int))
    ensures
        v_mag(a) >= 0,
{
    assert(a.0 * a.0 + a.1 * a.1 >= 0) by (nonlinear_arith);
    lemma_sqrt_floor(a.0 * a.0 + a.1 * a.1);
}

/// Fixed-point products and quotients of nonnegative values are
/// nonnegative, and magnitudes always are.
pub proof fn lemma_fx_nonneg_all()
    ensures
        forall|a: int, b: int| a >= 0 && b >= 0 ==> #[trigger] fx_mul(a, b) >= 0,
        forall|a: int, b: int| a >= 0 && b >= 0 ==> #[trigger] fx_div(a, b) >= 0,
        forall|d: (int, int)| #[trigger] v_mag(d) >= 0,
{
    assert forall|a: int, b: int| a >= 0 && b >= 0 implies #[trigger] fx_mul(a, b) >= 0 by {
        assert(a * b >= 0) by (nonlinear_arith)
            requires
                a >= 0,
                b >= 0,
        ;
        crate::fixed::lemma_tdiv_nonneg(a * b, SCALE as int);
    }
    assert forall|a: int, b: int| a >= 0 && b >= 0 implies #[trigger] fx_div(a, b) >= 0 by {
        if b != 0 {
            assert(a * (SCALE as int) >= 0) by (nonlinear_arith)
                requires
                    a >= 0,
            ;
            crate::fixed::lemma_tdiv_nonneg(a * (SCALE as int), b);
        }
    }
    assert forall|d: (int, int)| #[trigger] v_mag(d) >= 0 by {
        lemma_v_mag_nonneg(d);
    }
}

/// Whether both components of a point lie within the given bound.
pub open spec fn coord_bounded(p: (int, int), bound: int) -> bool {
    -bound <= p.0 <= bound && -bound <= p.1 <= bound
}

impl Vector2 {
    pub fn new(x: i64, y: i64) -> (r: Vector2)
        ensures
            r@ == (x as int, y as int),
    {
        Vector2 { x, y }
    }

    pub fn plus(&self, other: &Vector2) -> (r: Vector2)
        ensures
            r@ == v_add(self@, other@),
    {
        Vector2 { x: fixed_add(self.x, other.x), y: fixed_add(self.y, other.y) }
    }

    pub fn minus(&self, other: &Vector2) -> (r: Vector2)
        ensures
            r@ == v_sub(self@, other@),
    {
        Vector2 { x: fixed_sub(self.x, other.x), y: fixed_sub(self.y, other.y) }
    }

    pub fn negated(&self) -> (r: Vector2)
        ensures
            r@ == v_neg(self@),
    {
        Vector2 { x: fixed_neg(self.x), y: fixed_neg(self.y) }
    }

    /// Componentwise product with a fixed-point scalar.
    pub fn scaled(&self, k: i64) -> (r: Vector2)
        ensures
            r@ == v_scale(self@, k as int),
    {
        Vector2 { x: fixed_mul(self.x, k), y: fixed_mul(self.y, k) }
    }

    /// Componentwise quotient by a fixed-point scalar.
    pub fn div_scalar(&self, k: i64) -> (r: Vector2)
        ensures
            r@ == v_div_scalar(self@, k as int),
    {
        Vector2 { x: fixed_div(self.x, k), y: fixed_div(self.y, k) }
    }

    /// Interpolates between `self` (at `t == 0`) and `other` (at `t == SCALE`).
    pub fn lerp(&self, other: &Vector2, t: i64) -> (r: Vector2)
        ensures
            r@ == v_lerp(self@, other@, t as int),
    {
        let one_minus_t: i64 = fixed_sub(SCALE, t);
        other.scaled(t).plus(&self.scaled(one_minus_t))
    }

    /// Euclidean length of the vector, rounded down to the nearest raw unit.
    pub fn magnitude(&self) -> (r: i64)
        ensures
            r as int == v_mag(self@),
            r >= 0,
    {
        proof {
            assert(0 <= (self.x as int) * (self.x as int) <= 0x4000_0000_0000_0000_0000_0000_0000_0000int
                && 0 <= (self.y as int) * (self.y as int) <= 0x4000_0000_0000_0000_0000_0000_0000_0000int)
                by (nonlinear_arith)
                requires
                    i64::MIN <= self.x as int <= i64::MAX,
                    i64::MIN <= self.y as int <= i64::MAX,
            ;
        }
        let xx: i128 = (self.x as i128) * (self.x as i128);
        let yy: i128 = (self.y as i128) * (self.y as i128);
        let s: u128 = (xx as u128) + (yy as u128);
        proof {
            lemma_sqrt_floor(s as int);
        }
        let root: u64 = isqrt_u128(s);
        if root > i64::MAX as u64 {
            i64::MAX
        } else {
            root as i64
        }
    }
}

impl Default for Vector2 {
    /// The zero vector, the degenerate sentinel for out-of-range sampling.
    fn default() -> (r: Vector2)
        ensures
            r@ == (0int, 0int),
    {
        Vector2 { x: 0, y: 0 }
    }
}

} // verus!
