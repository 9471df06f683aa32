//! Cubic polynomial segments: position, derivative, and arc length by
//! fixed 5-point Gauss-Legendre quadrature of the derivative's magnitude.

use vstd::prelude::*;
use crate::fixed::{
    fixed_add, fixed_div, fixed_mul, fixed_neg, fx_add, fx_div, fx_mul, fx_neg,
    lemma_fx_mul_whole, SCALE,
};
use crate::vector2::{coord_bounded, v_add, v_mag, v_neg, v_scale, Vector2};

verus! {

pub const FX_TWO: i64 = 2 * SCALE;

pub const FX_THREE: i64 = 3 * SCALE;

pub const FX_NEG_THREE: i64 = -3 * SCALE;

pub const FX_NEG_SIX: i64 = -6 * SCALE;

/// Gauss-Legendre weight for the node at the interval's center.
pub const GAUSS_WEIGHT_CENTER: i64 = 1_706_667;  // 0.568889

/// Gauss-Legendre weight for the pair of inner nodes.
pub const GAUSS_WEIGHT_INNER: i64 = 1_435_887;  // 0.478629

/// Gauss-Legendre weight for the pair of outer nodes.
pub const GAUSS_WEIGHT_OUTER: i64 = 710_781;  // 0.236927

/// Canonical position of the inner node pair on `[-1, 1]`.
pub const GAUSS_NODE_INNER: i64 = 1_615_407;  // 0.538469

/// Canonical position of the outer node pair on `[-1, 1]`.
pub const GAUSS_NODE_OUTER: i64 = 2_718_540;  // 0.90618

/// A segment whose position is `c0 + c1*t + c2*t^2 + c3*t^3`.
#[derive(Clone, Copy, Debug)]
pub struct CubicSegment {
    degree_zero_term: Vector2,
    degree_one_term: Vector2,
    degree_two_term: Vector2,
    degree_three_term: Vector2,
    total_arc_length: i64,
}

impl CubicSegment {
    pub closed spec fn spec_c0(self) -> (int, int) {
        self.degree_zero_term@
    }

    pub closed spec fn spec_c1(self) -> (int, int) {
        self.degree_one_term@
    }

    pub closed spec fn spec_c2(self) -> (int, int) {
        self.degree_two_term@
    }

    pub closed spec fn spec_c3(self) -> (int, int) {
        self.degree_three_term@
    }

    pub closed spec fn spec_total(self) -> int {
        self.total_arc_length as int
    }
}

/// Polynomial evaluation `c0 + c1*t + c2*t*t + c3*t*t*t`, in the order the
/// executable code performs it.
pub open spec fn cubic_sample_coeffs(
    c0: (int, int),
    c1: (int, int),
    c2: (int, int),
    c3: (int, int),
    t: int,
) -> (int, int) {
    v_add(
        v_add(v_add(c0, v_scale(c1, t)), v_scale(v_scale(c2, t), t)),
        v_scale(v_scale(v_scale(c3, t), t), t),
    )
}

/// Derivative `c1 + 2*c2*t + 3*c3*t*t`.
pub open spec fn cubic_deriv_coeffs(c1: (int, int), c2: (int, int), c3: (int, int), t: int) -> (
    int,
    int,
) {
    v_add(
        v_add(c1, v_scale(v_scale(c2, FX_TWO as int), t)),
        v_scale(v_scale(v_scale(c3, FX_THREE as int), t), t),
    )
}

/// 5-point Gauss-Legendre quadrature of the derivative's magnitude over
/// `[0, t]`: the canonical nodes are rescaled onto the interval and the sum
/// is scaled by `t/2`. Opaque: the term is large, and most proofs need only
/// that it is a function of the coefficients and `t`.
#[verifier::opaque]
pub open spec fn cubic_arc_coeffs(c1: (int, int), c2: (int, int), c3: (int, int), t: int) -> int {
    let center = fx_div(t, FX_TWO as int);
    let inner_hi = fx_add(fx_div(fx_mul(t, GAUSS_NODE_INNER as int), FX_TWO as int), center);
    let inner_lo = fx_add(
        fx_div(fx_mul(fx_neg(t), GAUSS_NODE_INNER as int), FX_TWO as int),
        center,
    );
    let outer_hi = fx_add(fx_div(fx_mul(t, GAUSS_NODE_OUTER as int), FX_TWO as int), center);
    let outer_lo = fx_add(
        fx_div(fx_mul(fx_neg(t), GAUSS_NODE_OUTER as int), FX_TWO as int),
        center,
    );
    let term_one = fx_mul(GAUSS_WEIGHT_CENTER as int, v_mag(cubic_deriv_coeffs(c1, c2, c3, center)));
    let term_two = fx_mul(GAUSS_WEIGHT_INNER as int, v_mag(cubic_deriv_coeffs(c1, c2, c3, inner_hi)));
    let term_three = fx_mul(
        GAUSS_WEIGHT_INNER as int,
        v_mag(cubic_deriv_coeffs(c1, c2, c3, inner_lo)),
    );
    let term_four = fx_mul(GAUSS_WEIGHT_OUTER as int, v_mag(cubic_deriv_coeffs(c1, c2, c3, outer_hi)));
    let term_five = fx_mul(
        GAUSS_WEIGHT_OUTER as int,
        v_mag(cubic_deriv_coeffs(c1, c2, c3, outer_lo)),
    );
    fx_mul(
        center,
        fx_add(fx_add(fx_add(fx_add(term_one, term_two), term_three), term_four), term_five),
    )
}

pub open spec fn cubic_sample_spec(s: CubicSegment, t: int) -> (int, int) {
    cubic_sample_coeffs(s.spec_c0(), s.spec_c1(), s.spec_c2(), s.spec_c3(), t)
}

pub open spec fn cubic_deriv_spec(s: CubicSegment, t: int) -> (int, int) {
    cubic_deriv_coeffs(s.spec_c1(), s.spec_c2(), s.spec_c3(), t)
}

pub open spec fn cubic_arc_spec(s: CubicSegment, t: int) -> int {
    cubic_arc_coeffs(s.spec_c1(), s.spec_c2(), s.spec_c3(), t)
}

/// The cached total holds the quadrature arc length at parameter 1,
/// computed once at construction and never recomputed.
pub open spec fn cubic_wf(s: CubicSegment) -> bool {
    s.spec_total() == cubic_arc_spec(s, SCALE as int)
}

fn deriv_from_coeffs(c1: &Vector2, c2: &Vector2, c3: &Vector2, t: i64) -> (r: Vector2)
    ensures
        r@ == cubic_deriv_coeffs(c1@, c2@, c3@, t as int),
{
    c1.plus(&c2.scaled(FX_TWO).scaled(t)).plus(&c3.scaled(FX_THREE).scaled(t).scaled(t))
}

fn arc_from_coeffs(c1: &Vector2, c2: &Vector2, c3: &Vector2, t: i64) -> (r: i64)
    ensures
        r as int == cubic_arc_coeffs(c1@, c2@, c3@, t as int),
{
    proof {
        reveal(cubic_arc_coeffs);
    }
    let center: i64 = fixed_div(t, FX_TWO);
    let neg_t: i64 = fixed_neg(t);
    let inner_hi: i64 = fixed_add(fixed_div(fixed_mul(t, GAUSS_NODE_INNER), FX_TWO), center);
    let inner_lo: i64 = fixed_add(fixed_div(fixed_mul(neg_t, GAUSS_NODE_INNER), FX_TWO), center);
    let outer_hi: i64 = fixed_add(fixed_div(fixed_mul(t, GAUSS_NODE_OUTER), FX_TWO), center);
    let outer_lo: i64 = fixed_add(fixed_div(fixed_mul(neg_t, GAUSS_NODE_OUTER), FX_TWO), center);
    let term_one: i64 = fixed_mul(
        GAUSS_WEIGHT_CENTER,
        deriv_from_coeffs(c1, c2, c3, center).magnitude(),
    );
    let term_two: i64 = fixed_mul(
        GAUSS_WEIGHT_INNER,
        deriv_from_coeffs(c1, c2, c3, inner_hi).magnitude(),
    );
    let term_three: i64 = fixed_mul(
        GAUSS_WEIGHT_INNER,
        deriv_from_coeffs(c1, c2, c3, inner_lo).magnitude(),
    );
    let term_four: i64 = fixed_mul(
        GAUSS_WEIGHT_OUTER,
        deriv_from_coeffs(c1, c2, c3, outer_hi).magnitude(),
    );
    let term_five: i64 = fixed_mul(
        GAUSS_WEIGHT_OUTER,
        deriv_from_coeffs(c1, c2, c3, outer_lo).magnitude(),
    );
    fixed_mul(
        center,
        fixed_add(fixed_add(fixed_add(fixed_add(term_one, term_two), term_three), term_four), term_five),
    )
}

impl CubicSegment {
    /// Creates a cubic segment from the coefficients of all four terms; the
    /// total arc length is computed here, once.
    pub fn new(
        degree_zero_term: Vector2,
        degree_one_term: Vector2,
        degree_two_term: Vector2,
        degree_three_term: Vector2,
    ) -> (r: CubicSegment)
        ensures
            r.spec_c0() == degree_zero_term@,
            r.spec_c1() == degree_one_term@,
            r.spec_c2() == degree_two_term@,
            r.spec_c3() == degree_three_term@,
            cubic_wf(r),
    {
        let total: i64 = arc_from_coeffs(&degree_one_term, &degree_two_term, &degree_three_term, SCALE);
        CubicSegment {
            degree_zero_term,
            degree_one_term,
            degree_two_term,
            degree_three_term,
            total_arc_length: total,
        }
    }

    /// Position on the curve at parameter `t`.
    pub fn sample(&self, t: i64) -> (r: Vector2)
        ensures
            r@ == cubic_sample_spec(*self, t as int),
    {
        self.degree_zero_term
            .plus(&self.degree_one_term.scaled(t))
            .plus(&self.degree_two_term.scaled(t).scaled(t))
            .plus(&self.degree_three_term.scaled(t).scaled(t).scaled(t))
    }

    /// The (unnormalized) derivative at parameter `t`.
    pub fn derivative(&self, t: i64) -> (r: Vector2)
        ensures
            r@ == cubic_deriv_spec(*self, t as int),
    {
        deriv_from_coeffs(
            &self.degree_one_term,
            &self.degree_two_term,
            &self.degree_three_term,
            t,
        )
    }

    /// Arc length from parameter 0 to `t`, by quadrature.
    pub fn arc_length(&self, t: i64) -> (r: i64)
        ensures
            r as int == cubic_arc_spec(*self, t as int),
    {
        arc_from_coeffs(
            &self.degree_one_term,
            &self.degree_two_term,
            &self.degree_three_term,
            t,
        )
    }

    /// The cached total arc length; never recomputed after construction.
    pub fn total_arc_length(&self) -> (r: i64)
        ensures
            r as int == self.spec_total(),
    {
        self.total_arc_length
    }
}

/// A cubic segment given by four Bezier control points.
pub struct BezierSegment {}

/// The fixed change of basis from Bezier control points to polynomial
/// coefficients: `c0 = p0`, `c1 = -3*p0 + 3*p1`, `c2 = 3*p0 - 6*p1 + 3*p2`,
/// `c3 = -p0 + 3*p1 - 3*p2 + p3`.
pub open spec fn bezier_c1(p0: (int, int), p1: (int, int)) -> (int, int) {
    v_add(v_scale(p0, FX_NEG_THREE as int), v_scale(p1, FX_THREE as int))
}

pub open spec fn bezier_c2(p0: (int, int), p1: (int, int), p2: (int, int)) -> (int, int) {
    v_add(
        v_add(v_scale(p0, FX_THREE as int), v_scale(p1, FX_NEG_SIX as int)),
        v_scale(p2, FX_THREE as int),
    )
}

pub open spec fn bezier_c3(p0: (int, int), p1: (int, int), p2: (int, int), p3: (int, int)) -> (
    int,
    int,
) {
    v_add(
        v_add(v_add(v_neg(p0), v_scale(p1, FX_THREE as int)), v_scale(p2, FX_NEG_THREE as int)),
        p3,
    )
}

/// The cubic segment built from Bezier control points `p0..p3`: its
/// coefficients follow the change of basis and its cached total holds the
/// quadrature arc length at parameter 1.
pub open spec fn is_bezier_built(
    r: CubicSegment,
    p0: (int, int),
    p1: (int, int),
    p2: (int, int),
    p3: (int, int),
) -> bool {
    &&& r.spec_c0() == p0
    &&& r.spec_c1() == bezier_c1(p0, p1)
    &&& r.spec_c2() == bezier_c2(p0, p1, p2)
    &&& r.spec_c3() == bezier_c3(p0, p1, p2, p3)
    &&& cubic_wf(r)
}

impl BezierSegment {
    /// Builds the cubic segment through the fixed change of basis.
    pub fn new(p0: Vector2, p1: Vector2, p2: Vector2, p3: Vector2) -> (r: CubicSegment)
        ensures
            is_bezier_built(r, p0@, p1@, p2@, p3@),
    {
        CubicSegment::new(
            p0,
            p0.scaled(FX_NEG_THREE).plus(&p1.scaled(FX_THREE)),
            p0.scaled(FX_THREE).plus(&p1.scaled(FX_NEG_SIX)).plus(&p2.scaled(FX_THREE)),
            p0.negated().plus(&p1.scaled(FX_THREE)).plus(&p2.scaled(FX_NEG_THREE)).plus(&p3),
        )
    }
}

/// The cached total is a stored `i64`, so it lies in the `i64` range.
pub proof fn lemma_cubic_total_in_range(c: CubicSegment)
    ensures
        i64::MIN <= c.spec_total() <= i64::MAX,
{
}

/// At parameter 0 every higher term vanishes exactly: the position is the
/// constant coefficient and the derivative is the linear coefficient.
pub proof fn lemma_cubic_at_zero(c: CubicSegment)
    ensures
        cubic_sample_spec(c, 0) == c.spec_c0(),
        cubic_deriv_spec(c, 0) == c.spec_c1(),
{
    assert(0 * (SCALE as int) == 0);
    lemma_fx_mul_whole(c.spec_c1().0, 0);
    lemma_fx_mul_whole(c.spec_c1().1, 0);
    lemma_fx_mul_whole(c.spec_c2().0, 0);
    lemma_fx_mul_whole(c.spec_c2().1, 0);
    lemma_fx_mul_whole(c.spec_c3().0, 0);
    lemma_fx_mul_whole(c.spec_c3().1, 0);
    lemma_fx_mul_whole(0, 0);
    lemma_fx_mul_whole(fx_mul(c.spec_c2().0, FX_TWO as int), 0);
    lemma_fx_mul_whole(fx_mul(c.spec_c2().1, FX_TWO as int), 0);
    lemma_fx_mul_whole(fx_mul(c.spec_c3().0, FX_THREE as int), 0);
    lemma_fx_mul_whole(fx_mul(c.spec_c3().1, FX_THREE as int), 0);
}

/// Coordinate bound under which the change of basis and the evaluation at
/// the domain's ends stay clear of saturation.
pub const BEZIER_LAW_BOUND: i64 = 709_490_156_681_136_600;  // a thirteenth of i64::MAX

/// One coordinate of the end-of-domain evaluation: with bounded control
/// values, the four coefficients telescope back to the last control value.
proof fn lemma_bezier_end_coordinate(a0: int, a1: int, a2: int, a3: int)
    requires
        -BEZIER_LAW_BOUND <= a0 <= BEZIER_LAW_BOUND,
        -BEZIER_LAW_BOUND <= a1 <= BEZIER_LAW_BOUND,
        -BEZIER_LAW_BOUND <= a2 <= BEZIER_LAW_BOUND,
        -BEZIER_LAW_BOUND <= a3 <= BEZIER_LAW_BOUND,
    ensures
        ({
            let c0 = a0;
            let c1 = fx_add(fx_mul(a0, FX_NEG_THREE as int), fx_mul(a1, FX_THREE as int));
            let c2 = fx_add(
                fx_add(fx_mul(a0, FX_THREE as int), fx_mul(a1, FX_NEG_SIX as int)),
                fx_mul(a2, FX_THREE as int),
            );
            let c3 = fx_add(
                fx_add(fx_add(fx_neg(a0), fx_mul(a1, FX_THREE as int)), fx_mul(a2, FX_NEG_THREE as int)),
                a3,
            );
            fx_add(
                fx_add(fx_add(c0, fx_mul(c1, SCALE as int)), fx_mul(fx_mul(c2, SCALE as int), SCALE as int)),
                fx_mul(fx_mul(fx_mul(c3, SCALE as int), SCALE as int), SCALE as int),
            ) == a3
        }),
{
    let s = SCALE as int;
    assert(FX_NEG_THREE as int == -3 * s);
    assert(FX_THREE as int == 3 * s);
    assert(FX_NEG_SIX as int == -6 * s);
    lemma_fx_mul_whole(a0, -3);
    lemma_fx_mul_whole(a1, 3);
    lemma_fx_mul_whole(a0, 3);
    lemma_fx_mul_whole(a1, -6);
    lemma_fx_mul_whole(a2, 3);
    lemma_fx_mul_whole(a2, -3);
    let c1 = fx_add(fx_mul(a0, FX_NEG_THREE as int), fx_mul(a1, FX_THREE as int));
    let c2 = fx_add(
        fx_add(fx_mul(a0, FX_THREE as int), fx_mul(a1, FX_NEG_SIX as int)),
        fx_mul(a2, FX_THREE as int),
    );
    let c3 = fx_add(
        fx_add(fx_add(fx_neg(a0), fx_mul(a1, FX_THREE as int)), fx_mul(a2, FX_NEG_THREE as int)),
        a3,
    );
    assert(c1 == -3 * a0 + 3 * a1);
    assert(c2 == 3 * a0 + -6 * a1 + 3 * a2);
    assert(c3 == -a0 + 3 * a1 + -3 * a2 + a3);
    assert(1 * s == s);
    lemma_fx_mul_whole(c1, 1);
    lemma_fx_mul_whole(c2, 1);
    lemma_fx_mul_whole(fx_mul(c2, s), 1);
    lemma_fx_mul_whole(c3, 1);
    lemma_fx_mul_whole(fx_mul(c3, s), 1);
    lemma_fx_mul_whole(fx_mul(fx_mul(c3, s), s), 1);
}

/// For a segment built from Bezier control points within the law's bound,
/// sampling at 0 returns the first control point and sampling at 1 returns
/// the last, exactly.
pub proof fn lemma_bezier_endpoints(
    c: CubicSegment,
    p0: (int, int),
    p1: (int, int),
    p2: (int, int),
    p3: (int, int),
)
    requires
        is_bezier_built(c, p0, p1, p2, p3),
        coord_bounded(p0, BEZIER_LAW_BOUND as int),
        coord_bounded(p1, BEZIER_LAW_BOUND as int),
        coord_bounded(p2, BEZIER_LAW_BOUND as int),
        coord_bounded(p3, BEZIER_LAW_BOUND as int),
    ensures
        cubic_sample_spec(c, 0) == p0,
        cubic_sample_spec(c, SCALE as int) == p3,
{
    lemma_cubic_at_zero(c);
    lemma_bezier_end_coordinate(p0.0, p1.0, p2.0, p3.0);
    lemma_bezier_end_coordinate(p0.1, p1.1, p2.1, p3.1);
}

} // verus!
