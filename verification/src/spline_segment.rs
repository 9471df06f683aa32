//! The closed set of segment variants and their shared capability set:
//! sample, derivative, arc length, total arc length, and inversion of arc
//! length. The inversion shared by variants without a closed form is
//! Newton-Raphson on `f(t) = arc_length(t) - L` with `f'(t)` the magnitude
//! of the derivative, run for a fixed number of iterations.

use vstd::prelude::*;
use crate::cubic_segment::{
    cubic_arc_coeffs, cubic_arc_spec, cubic_deriv_spec, cubic_sample_spec, cubic_wf, CubicSegment,
    FX_TWO,
};
use crate::fixed::{
    fixed_div, fixed_sub, fx_div, fx_mul, fx_sub, lemma_fx_div_zero, lemma_fx_mul_whole,
    lemma_fx_mul_zero_left_all, NEWTON_ITERATIONS, SCALE,
};
use crate::linear_segment::{
    linear_arc_spec, linear_deriv_spec, linear_sample_spec, linear_time_spec, linear_wf,
    LinearSegment,
};
use crate::vector2::{lemma_fx_nonneg_all, lemma_v_mag_nonneg, v_mag, Vector2};

verus! {

/// A single segment of a spline. Parameters are meaningful on `[0, SCALE]`;
/// outside that range the operations still return (saturating) values, but
/// they no longer measure the curve.
#[derive(Clone, Copy, Debug)]
pub enum SplineSegment {
    Linear(LinearSegment),
    Cubic(CubicSegment),
}

/// The segment's derived fields hold what its variant's constructor computes.
pub open spec fn seg_wf(s: SplineSegment) -> bool {
    match s {
        SplineSegment::Linear(l) => linear_wf(l),
        SplineSegment::Cubic(c) => cubic_wf(c),
    }
}

pub open spec fn seg_sample(s: SplineSegment, t: int) -> (int, int) {
    match s {
        SplineSegment::Linear(l) => linear_sample_spec(l, t),
        SplineSegment::Cubic(c) => cubic_sample_spec(c, t),
    }
}

pub open spec fn seg_deriv(s: SplineSegment, t: int) -> (int, int) {
    match s {
        SplineSegment::Linear(l) => linear_deriv_spec(l),
        SplineSegment::Cubic(c) => cubic_deriv_spec(c, t),
    }
}

pub open spec fn seg_arc(s: SplineSegment, t: int) -> int {
    match s {
        SplineSegment::Linear(l) => linear_arc_spec(l, t),
        SplineSegment::Cubic(c) => cubic_arc_spec(c, t),
    }
}

/// The total arc length: the linear variant evaluates its closed form at
/// parameter 1, the cubic variant returns its cached value.
pub open spec fn seg_total(s: SplineSegment) -> int {
    match s {
        SplineSegment::Linear(l) => linear_arc_spec(l, SCALE as int),
        SplineSegment::Cubic(c) => c.spec_total(),
    }
}

/// One Newton-Raphson step toward `arc_length(t) == arc_length`. A zero
/// local speed leaves the guess unchanged (the quotient degenerates to 0).
pub open spec fn newton_step(s: SplineSegment, arc_length: int, t: int) -> int {
    fx_sub(t, fx_div(fx_sub(seg_arc(s, t), arc_length), v_mag(seg_deriv(s, t))))
}

/// `n` Newton-Raphson steps from `guess`.
pub open spec fn newton_iterate(s: SplineSegment, arc_length: int, guess: int, n: nat) -> int
    decreases n,
{
    if n == 0 {
        guess
    } else {
        newton_step(s, arc_length, newton_iterate(s, arc_length, guess, (n - 1) as nat))
    }
}

/// Inversion from an explicit first guess: the linear variant uses its exact
/// closed form (the guess is irrelevant), the cubic variant runs the fixed
/// number of Newton-Raphson iterations.
pub open spec fn seg_time_from_guess(s: SplineSegment, arc_length: int, guess: int) -> int {
    match s {
        SplineSegment::Linear(l) => linear_time_spec(l, arc_length),
        SplineSegment::Cubic(_) => newton_iterate(
            s,
            arc_length,
            guess,
            NEWTON_ITERATIONS as nat,
        ),
    }
}

/// Inversion with the default first guess, seeded as if the segment's speed
/// were constant: `arc_length / total_arc_length()`.
pub open spec fn seg_time_at(s: SplineSegment, arc_length: int) -> int {
    seg_time_from_guess(s, arc_length, fx_div(arc_length, seg_total(s)))
}

impl SplineSegment {
    /// Position on the segment at parameter `t`.
    pub fn sample(&self, t: i64) -> (r: Vector2)
        ensures
            r@ == seg_sample(*self, t as int),
    {
        match self {
            SplineSegment::Linear(l) => l.sample(t),
            SplineSegment::Cubic(c) => c.sample(t),
        }
    }

    /// The (unnormalized) derivative at parameter `t`.
    pub fn derivative(&self, t: i64) -> (r: Vector2)
        ensures
            r@ == seg_deriv(*self, t as int),
    {
        match self {
            SplineSegment::Linear(l) => l.derivative(t),
            SplineSegment::Cubic(c) => c.derivative(t),
        }
    }

    /// Arc length from parameter 0 to `t`.
    pub fn arc_length(&self, t: i64) -> (r: i64)
        ensures
            r as int == seg_arc(*self, t as int),
    {
        match self {
            SplineSegment::Linear(l) => l.arc_length(t),
            SplineSegment::Cubic(c) => c.arc_length(t),
        }
    }

    /// Total arc length; cached for cubic segments.
    pub fn total_arc_length(&self) -> (r: i64)
        ensures
            r as int == seg_total(*self),
    {
        match self {
            SplineSegment::Linear(l) => l.total_arc_length(),
            SplineSegment::Cubic(c) => c.total_arc_length(),
        }
    }

    /// Finds `t` with `arc_length(t)` near the given length, seeding the
    /// guess as if the segment's speed were constant.
    pub fn time_at_arc_length(&self, arc_length: i64) -> (r: i64)
        ensures
            r as int == seg_time_at(*self, arc_length as int),
    {
        let total: i64 = self.total_arc_length();
        let guess: i64 = fixed_div(arc_length, total);
        self.time_at_arc_length_from_guess(arc_length, guess)
    }

    /// Same inversion from an explicit first guess.
    pub fn time_at_arc_length_from_guess(&self, arc_length: i64, initial_guess: i64) -> (r: i64)
        ensures
            r as int == seg_time_from_guess(*self, arc_length as int, initial_guess as int),
    {
        match self {
            SplineSegment::Linear(l) => l.time_at_arc_length_from_guess(arc_length, initial_guess),
            SplineSegment::Cubic(_) => {
                let mut guess: i64 = initial_guess;
                let mut i: u32 = 0;
                while i < NEWTON_ITERATIONS
                    invariant
                        i <= NEWTON_ITERATIONS,
                        guess as int == newton_iterate(
                            *self,
                            arc_length as int,
                            initial_guess as int,
                            i as nat,
                        ),
                    decreases NEWTON_ITERATIONS - i,
                {
                    let arc: i64 = self.arc_length(guess);
                    let speed: i64 = self.derivative(guess).magnitude();
                    guess = fixed_sub(guess, fixed_div(fixed_sub(arc, arc_length), speed));
                    i = i + 1;
                }
                guess
            },
        }
    }
}

/// The arc length from 0 to 0 is exactly zero: the linear closed form
/// multiplies by zero, and the quadrature scales its sum by half of zero.
pub proof fn lemma_seg_arc_zero(s: SplineSegment)
    ensures
        seg_arc(s, 0) == 0,
{
    match s {
        SplineSegment::Linear(l) => {
            assert(0 * (SCALE as int) == 0);
            lemma_fx_mul_whole(l.spec_total(), 0);
            assert(l.spec_total() * 0 == 0) by (nonlinear_arith);
        },
        SplineSegment::Cubic(c) => {
            reveal(cubic_arc_coeffs);
            lemma_fx_div_zero(FX_TWO as int);
            lemma_fx_mul_zero_left_all();
        },
    }
}

/// The quadrature arc length is nonnegative on a nonnegative interval: every
/// weighted magnitude is nonnegative and so is the scaling by `t/2`.
pub proof fn lemma_cubic_arc_nonneg(c1: (int, int), c2: (int, int), c3: (int, int), t: int)
    requires
        t >= 0,
    ensures
        cubic_arc_coeffs(c1, c2, c3, t) >= 0,
{
    reveal(cubic_arc_coeffs);
    lemma_fx_nonneg_all();
}

/// A segment's total arc length is a clamped or stored `i64` value, so it
/// lies in the `i64` range.
pub proof fn lemma_seg_total_in_range(s: SplineSegment)
    ensures
        i64::MIN <= seg_total(s) <= i64::MAX,
{
    match s {
        SplineSegment::Linear(l) => {
            assert(seg_total(s) == fx_mul(l.spec_total(), SCALE as int));
        },
        SplineSegment::Cubic(c) => {
            crate::cubic_segment::lemma_cubic_total_in_range(c);
        },
    }
}

/// A segment's total arc length is never negative.
pub proof fn lemma_seg_total_nonneg(s: SplineSegment)
    requires
        seg_wf(s),
    ensures
        seg_total(s) >= 0,
{
    match s {
        SplineSegment::Linear(l) => {
            lemma_v_mag_nonneg(crate::vector2::v_sub(l.spec_p1(), l.spec_p0()));
            assert(1 * (SCALE as int) == SCALE as int);
            lemma_fx_mul_whole(l.spec_total(), 1);
        },
        SplineSegment::Cubic(c) => {
            lemma_cubic_arc_nonneg(c.spec_c1(), c.spec_c2(), c.spec_c3(), SCALE as int);
        },
    }
}

/// The cached or closed-form total equals the arc length at parameter 1:
/// querying the total before or after any other query returns the same
/// value, because both are pure functions of the segment.
pub proof fn lemma_total_is_arc_at_one(s: SplineSegment)
    requires
        seg_wf(s),
    ensures
        seg_total(s) == seg_arc(s, SCALE as int),
{
}

/// Newton-Raphson started at zero with a zero target stays at zero for any
/// number of iterations.
pub proof fn lemma_newton_zero(s: SplineSegment, n: nat)
    ensures
        newton_iterate(s, 0, 0, n) == 0,
    decreases n,
{
    if n > 0 {
        lemma_newton_zero(s, (n - 1) as nat);
        lemma_seg_arc_zero(s);
        lemma_fx_div_zero(v_mag(seg_deriv(s, 0)));
    }
}

/// Inverting a zero arc length returns parameter zero, for either variant.
pub proof fn lemma_seg_time_at_zero(s: SplineSegment)
    ensures
        seg_time_at(s, 0) == 0,
{
    lemma_fx_div_zero(seg_total(s));
    match s {
        SplineSegment::Linear(l) => {
            lemma_fx_div_zero(l.spec_total());
        },
        SplineSegment::Cubic(_) => {
            lemma_newton_zero(s, NEWTON_ITERATIONS as nat);
        },
    }
}

} // verus!
