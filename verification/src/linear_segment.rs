//! Linear interpolation between two points as a curve segment.

use vstd::prelude::*;
use vstd::arithmetic::div_mod::{
    lemma_div_is_ordered, lemma_div_multiples_vanish, lemma_fundamental_div_mod,
    lemma_fundamental_div_mod_converse_div, lemma_mod_bound,
};
use crate::fixed::{
    fixed_div, fixed_mul, fx_div, fx_mul, lemma_fx_mul_whole, lemma_tdiv_exact, lemma_tdiv_nonneg,
    SCALE,
};
use crate::vector2::{v_lerp, v_mag, v_sub, Vector2};

verus! {

/// A straight segment from `p0` to `p1`, with the distance between them
/// derived once at construction.
#[derive(Clone, Copy, Debug)]
pub struct LinearSegment {
    p0: Vector2,
    p1: Vector2,
    total_length: i64,
}

impl LinearSegment {
    pub closed spec fn spec_p0(self) -> (int, int) {
        self.p0@
    }

    pub closed spec fn spec_p1(self) -> (int, int) {
        self.p1@
    }

    pub closed spec fn spec_total(self) -> int {
        self.total_length as int
    }
}

/// The derived length field holds the distance between the endpoints.
pub open spec fn linear_wf(s: LinearSegment) -> bool {
    s.spec_total() == v_mag(v_sub(s.spec_p1(), s.spec_p0()))
}

pub open spec fn linear_sample_spec(s: LinearSegment, t: int) -> (int, int) {
    v_lerp(s.spec_p0(), s.spec_p1(), t)
}

/// The derivative of a linear segment is the constant `p1 - p0`.
pub open spec fn linear_deriv_spec(s: LinearSegment) -> (int, int) {
    v_sub(s.spec_p1(), s.spec_p0())
}

/// Closed form: the arc length from 0 to `t` is `total_length * t`.
pub open spec fn linear_arc_spec(s: LinearSegment, t: int) -> int {
    fx_mul(s.spec_total(), t)
}

/// Closed form inverse: `length / total_length` (zero on a degenerate
/// zero-length segment).
pub open spec fn linear_time_spec(s: LinearSegment, arc_length: int) -> int {
    fx_div(arc_length, s.spec_total())
}

impl LinearSegment {
    /// Creates a linear segment from two points.
    pub fn new(p0: Vector2, p1: Vector2) -> (r: LinearSegment)
        ensures
            r.spec_p0() == p0@,
            r.spec_p1() == p1@,
            linear_wf(r),
    {
        LinearSegment { p0, p1, total_length: p1.minus(&p0).magnitude() }
    }

    /// Position on the segment at parameter `t`.
    pub fn sample(&self, t: i64) -> (r: Vector2)
        ensures
            r@ == linear_sample_spec(*self, t as int),
    {
        self.p0.lerp(&self.p1, t)
    }

    /// The (unnormalized) derivative; constant over the whole segment.
    pub fn derivative(&self, _t: i64) -> (r: Vector2)
        ensures
            r@ == linear_deriv_spec(*self),
    {
        self.p1.minus(&self.p0)
    }

    /// Arc length from parameter 0 to `t`, in closed form.
    pub fn arc_length(&self, t: i64) -> (r: i64)
        ensures
            r as int == linear_arc_spec(*self, t as int),
    {
        fixed_mul(self.total_length, t)
    }

    /// Total arc length: the arc length at parameter 1.
    pub fn total_arc_length(&self) -> (r: i64)
        ensures
            r as int == linear_arc_spec(*self, SCALE as int),
    {
        self.arc_length(SCALE)
    }

    /// Exact inverse of `arc_length`; no iteration is needed.
    pub fn time_at_arc_length(&self, arc_length: i64) -> (r: i64)
        ensures
            r as int == linear_time_spec(*self, arc_length as int),
    {
        fixed_div(arc_length, self.total_length)
    }

    /// The closed form makes the caller's guess irrelevant.
    pub fn time_at_arc_length_from_guess(&self, arc_length: i64, _initial_guess: i64) -> (r: i64)
        ensures
            r as int == linear_time_spec(*self, arc_length as int),
    {
        self.time_at_arc_length(arc_length)
    }
}

/// Sampling a linear segment at the ends of its domain returns the
/// endpoints, exactly and for every segment. (That the derivative is the
/// constant `p1 - p0` at every parameter is already visible in
/// `linear_deriv_spec`, which ignores the parameter.)
pub proof fn lemma_linear_endpoints(s: LinearSegment)
    ensures
        linear_sample_spec(s, 0) == s.spec_p0(),
        linear_sample_spec(s, SCALE as int) == s.spec_p1(),
{
    let a = s.spec_p0();
    let b = s.spec_p1();
    assert(0 * (SCALE as int) == 0);
    assert(1 * (SCALE as int) == SCALE as int);
    lemma_fx_mul_whole(a.0, 0);
    lemma_fx_mul_whole(a.1, 0);
    lemma_fx_mul_whole(b.0, 0);
    lemma_fx_mul_whole(b.1, 0);
    lemma_fx_mul_whole(a.0, 1);
    lemma_fx_mul_whole(a.1, 1);
    lemma_fx_mul_whole(b.0, 1);
    lemma_fx_mul_whole(b.1, 1);
}

/// Sampling at one half returns the midpoint of the endpoints whenever both
/// coordinates are even in raw units, so that no halving truncates.
pub proof fn lemma_linear_midpoint(s: LinearSegment)
    requires
        s.spec_p0().0 % 2 == 0,
        s.spec_p0().1 % 2 == 0,
        s.spec_p1().0 % 2 == 0,
        s.spec_p1().1 % 2 == 0,
    ensures
        linear_sample_spec(s, (SCALE as int) / 2) == (
            (s.spec_p0().0 + s.spec_p1().0) / 2,
            (s.spec_p0().1 + s.spec_p1().1) / 2,
        ),
{
    let a = s.spec_p0();
    let b = s.spec_p1();
    lemma_linear_half_component(a.0, b.0);
    lemma_linear_half_component(a.1, b.1);
}

/// One component of the midpoint computation: halving even raw values by a
/// fixed-point product with one half is exact.
proof fn lemma_linear_half_component(a: int, b: int)
    requires
        i64::MIN <= a <= i64::MAX,
        i64::MIN <= b <= i64::MAX,
        a % 2 == 0,
        b % 2 == 0,
    ensures
        fx_mul(b, (SCALE as int) / 2) + fx_mul(a, (SCALE as int) / 2) == (a + b) / 2,
        i64::MIN <= fx_mul(b, (SCALE as int) / 2) + fx_mul(a, (SCALE as int) / 2) <= i64::MAX,
{
    let big = SCALE as int;
    let half = big / 2;
    lemma_fundamental_div_mod(a, 2);
    lemma_fundamental_div_mod(b, 2);
    lemma_mod_bound(a, 2);
    lemma_mod_bound(b, 2);
    let ma = a / 2;
    let mb = b / 2;
    assert(a * half == ma * big) by (nonlinear_arith)
        requires
            a == 2 * ma,
            half == 1_500_000,
            big == 3_000_000,
    ;
    assert(b * half == mb * big) by (nonlinear_arith)
        requires
            b == 2 * mb,
            half == 1_500_000,
            big == 3_000_000,
    ;
    lemma_tdiv_exact(ma, big);
    lemma_tdiv_exact(mb, big);
    lemma_div_multiples_vanish(ma + mb, 2);
    assert(2 * (ma + mb) == a + b);
}

/// Round-trip law for the linear closed forms: inverting the arc length of a
/// parameter in the domain returns a parameter at most the original, and
/// lower by no more than what the two truncating divisions can lose.
pub proof fn lemma_linear_round_trip(s: LinearSegment, t0: int)
    requires
        linear_wf(s),
        s.spec_total() > 0,
        0 <= t0 <= SCALE as int,
    ensures
        linear_time_spec(s, linear_arc_spec(s, t0)) <= t0,
        t0 - linear_time_spec(s, linear_arc_spec(s, t0)) <= (SCALE as int) / s.spec_total() + 1,
{
    let big = SCALE as int;
    let tt = s.spec_total();
    assert(tt * t0 >= 0) by (nonlinear_arith)
        requires
            tt > 0,
            t0 >= 0,
    ;
    lemma_tdiv_nonneg(tt * t0, big);
    let arc = (tt * t0) / big;
    assert(tt * t0 <= tt * big) by (nonlinear_arith)
        requires
            t0 <= big,
            tt >= 0,
    ;
    lemma_div_is_ordered(tt * t0, tt * big, big);
    assert(tt * big == big * tt) by (nonlinear_arith);
    lemma_div_multiples_vanish(tt, big);
    assert(linear_arc_spec(s, t0) == arc);
    // The inversion divides back by the total length.
    assert(arc * big >= 0) by (nonlinear_arith)
        requires
            arc >= 0,
            big > 0,
    ;
    lemma_tdiv_nonneg(arc * big, tt);
    let r = (arc * big) / tt;
    lemma_fundamental_div_mod(tt * t0, big);
    lemma_mod_bound(tt * t0, big);
    let a_rem = (tt * t0) % big;
    assert(arc * big == tt * t0 - a_rem) by (nonlinear_arith)
        requires
            tt * t0 == big * arc + a_rem,
    ;
    lemma_div_is_ordered(arc * big, tt * t0, tt);
    assert(tt * t0 == t0 * tt) by (nonlinear_arith);
    lemma_div_multiples_vanish(t0, tt);
    assert(r <= t0);
    assert(linear_time_spec(s, arc) == r);
    // The two remainders bound what the round trip loses.
    lemma_fundamental_div_mod(arc * big, tt);
    lemma_mod_bound(arc * big, tt);
    let b_rem = (arc * big) % tt;
    assert(tt * (t0 - r) == a_rem + b_rem) by (nonlinear_arith)
        requires
            tt * t0 == big * arc + a_rem,
            arc * big == tt * r + b_rem,
    ;
    lemma_div_multiples_vanish(t0 - r, tt);
    lemma_div_is_ordered(a_rem + b_rem, big + tt - 2, tt);
    lemma_fundamental_div_mod(big, tt);
    lemma_mod_bound(big, tt);
    if tt == 1 {
        lemma_mod_bound(a_rem + b_rem, 1);
        lemma_fundamental_div_mod(a_rem + b_rem, 1);
    } else if big % tt >= 2 {
        assert(big + tt - 2 == (big / tt + 1) * tt + (big % tt - 2)) by (nonlinear_arith)
            requires
                big == tt * (big / tt) + big % tt,
        ;
        lemma_fundamental_div_mod_converse_div(big + tt - 2, tt, big / tt + 1, big % tt - 2);
    } else {
        assert(big + tt - 2 == (big / tt) * tt + (big % tt + tt - 2)) by (nonlinear_arith)
            requires
                big == tt * (big / tt) + big % tt,
        ;
        lemma_fundamental_div_mod_converse_div(big + tt - 2, tt, big / tt, big % tt + tt - 2);
    }
}

} // verus!
