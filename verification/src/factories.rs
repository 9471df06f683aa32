//! Construction requests for spline segments. Each factory carries the raw
//! control data the caller supplies; `build` receives the previously built
//! segment, if any, and derives from it whatever start conditions the
//! factory's continuity class inherits. The class names record caller
//! intent: the `C2` factory inherits both start point and start velocity
//! automatically, while the `C1` factories take a caller-supplied velocity;
//! no factory verifies continuity algorithmically.

use vstd::prelude::*;
use vstd::arithmetic::div_mod::lemma_fundamental_div_mod;
use crate::cubic_segment::{
    cubic_deriv_spec, cubic_sample_spec, is_bezier_built, lemma_cubic_at_zero, BezierSegment,
    CubicSegment, BEZIER_LAW_BOUND, FX_NEG_THREE, FX_THREE,
};
use crate::linear_segment::{linear_wf, LinearSegment};
use crate::spline_error::{SplineError, SplineErrorType};
use crate::spline_segment::{seg_deriv, seg_sample, SplineSegment};
use crate::fixed::{fx_add, fx_div, fx_mul, lemma_fx_mul_whole, lemma_tdiv_exact, SCALE};
use crate::vector2::{coord_bounded, v_add, v_div_scalar, v_sub, Vector2};

verus! {

/// The previous segment handed to `build`, as a spec-level value.
pub open spec fn previous_value(previous_segment: Option<&SplineSegment>) -> Option<
    SplineSegment,
> {
    match previous_segment {
        Option::Some(p) => Option::Some(*p),
        Option::None => Option::None,
    }
}

/// A factory that creates linear segments; needs no predecessor.
pub struct LinearSegmentFactory {
    pub p0: Vector2,
    pub p1: Vector2,
}

impl LinearSegmentFactory {
    /// Directly creates a linear segment from the given points.
    pub fn new(p0: Vector2, p1: Vector2) -> (r: LinearSegmentFactory)
        ensures
            r.p0 == p0,
            r.p1 == p1,
    {
        LinearSegmentFactory { p0, p1 }
    }

    pub fn build(&self, _previous_segment: Option<&SplineSegment>) -> (r: Result<
        SplineSegment,
        SplineError,
    >)
        ensures
            (r matches Ok(s) && s matches SplineSegment::Linear(l) && l.spec_p0() == self.p0@
                && l.spec_p1() == self.p1@ && linear_wf(l)),
    {
        Ok(SplineSegment::Linear(LinearSegment::new(self.p0, self.p1)))
    }
}

/// A factory that creates C0 continuous cubic segments from four Bezier
/// control points; needs no predecessor.
pub struct C0CubicBezierSegmentFactory {
    pub p0: Vector2,
    pub p1: Vector2,
    pub p2: Vector2,
    pub p3: Vector2,
}

impl C0CubicBezierSegmentFactory {
    /// Creates a bezier segment from four control points.
    pub fn new(p0: Vector2, p1: Vector2, p2: Vector2, p3: Vector2) -> (r:
        C0CubicBezierSegmentFactory)
        ensures
            r.p0 == p0,
            r.p1 == p1,
            r.p2 == p2,
            r.p3 == p3,
    {
        C0CubicBezierSegmentFactory { p0, p1, p2, p3 }
    }

    pub fn build(&self, _previous_segment: Option<&SplineSegment>) -> (r: Result<
        SplineSegment,
        SplineError,
    >)
        ensures
            (r matches Ok(s) && s matches SplineSegment::Cubic(c) && is_bezier_built(
                c,
                self.p0@,
                self.p1@,
                self.p2@,
                self.p3@,
            )),
    {
        Ok(SplineSegment::Cubic(BezierSegment::new(self.p0, self.p1, self.p2, self.p3)))
    }
}

/// A factory that creates C1 continuous cubic segments: the caller supplies
/// the last three Bezier control points and the first is the predecessor's
/// end sample.
pub struct C1CubicBezierSegmentFactory {
    pub p1: Vector2,
    pub p2: Vector2,
    pub p3: Vector2,
}

impl C1CubicBezierSegmentFactory {
    /// Takes in the final three control points. The first control point
    /// is extrapolated from the previous segment.
    pub fn new(p1: Vector2, p2: Vector2, p3: Vector2) -> (r: C1CubicBezierSegmentFactory)
        ensures
            r.p1 == p1,
            r.p2 == p2,
            r.p3 == p3,
    {
        C1CubicBezierSegmentFactory { p1, p2, p3 }
    }

    pub fn build(&self, previous_segment: Option<&SplineSegment>) -> (r: Result<
        SplineSegment,
        SplineError,
    >)
        ensures
            r is Ok <==> previous_segment is Some,
            (previous_value(previous_segment) matches Some(p) ==> (r matches Ok(s)
                && s matches SplineSegment::Cubic(c) && is_bezier_built(
                c,
                seg_sample(p, SCALE as int),
                self.p1@,
                self.p2@,
                self.p3@,
            ))),
            (r matches Err(e) ==> e.spec_error_type() == SplineErrorType::InvalidPreviousSegment
                && e.spec_message()
                == "C1CubicBezierSegmentFactory requires a previous segment for building"@),
    {
        match previous_segment {
            Some(previous_segment) => {
                let p0: Vector2 = previous_segment.sample(SCALE);
                Ok(SplineSegment::Cubic(BezierSegment::new(p0, self.p1, self.p2, self.p3)))
            },
            None => Err(
                SplineError::new(
                    "C1CubicBezierSegmentFactory requires a previous segment for building",
                    &SplineErrorType::InvalidPreviousSegment,
                ),
            ),
        }
    }
}

/// A factory that creates C1 continuous cubic segments from Hermite data:
/// the caller supplies both velocities and the end point, and the start
/// point is the predecessor's end sample.
pub struct C1HermiteSegmentFactory {
    pub v0: Vector2,
    pub p1: Vector2,
    pub v1: Vector2,
}

/// The Hermite-to-Bezier conversion of the control points: the inner Bezier
/// points sit a third of each velocity away from the matching endpoint.
pub open spec fn hermite_inner_start(p0: (int, int), v0: (int, int)) -> (int, int) {
    v_add(p0, v_div_scalar(v0, FX_THREE as int))
}

pub open spec fn hermite_inner_end(p1: (int, int), v1: (int, int)) -> (int, int) {
    v_sub(p1, v_div_scalar(v1, FX_THREE as int))
}

impl C1HermiteSegmentFactory {
    /// Takes in both velocities and the final control point. The first
    /// control point is extrapolated from the previous segment.
    pub fn new(v0: Vector2, p1: Vector2, v1: Vector2) -> (r: C1HermiteSegmentFactory)
        ensures
            r.v0 == v0,
            r.p1 == p1,
            r.v1 == v1,
    {
        C1HermiteSegmentFactory { v0, p1, v1 }
    }

    pub fn build(&self, previous_segment: Option<&SplineSegment>) -> (r: Result<
        SplineSegment,
        SplineError,
    >)
        ensures
            r is Ok <==> previous_segment is Some,
            (previous_value(previous_segment) matches Some(p) ==> (r matches Ok(s)
                && s matches SplineSegment::Cubic(c) && is_bezier_built(
                c,
                seg_sample(p, SCALE as int),
                hermite_inner_start(seg_sample(p, SCALE as int), self.v0@),
                hermite_inner_end(self.p1@, self.v1@),
                self.p1@,
            ))),
            (r matches Err(e) ==> e.spec_error_type() == SplineErrorType::InvalidPreviousSegment
                && e.spec_message()
                == "C1HermiteSegmentFactory requires a previous segment for building"@),
    {
        match previous_segment {
            Some(previous_segment) => {
                let p0: Vector2 = previous_segment.sample(SCALE);
                Ok(
                    SplineSegment::Cubic(
                        BezierSegment::new(
                            p0,
                            p0.plus(&self.v0.div_scalar(FX_THREE)),
                            self.p1.minus(&self.v1.div_scalar(FX_THREE)),
                            self.p1,
                        ),
                    ),
                )
            },
            None => Err(
                SplineError::new(
                    "C1HermiteSegmentFactory requires a previous segment for building",
                    &SplineErrorType::InvalidPreviousSegment,
                ),
            ),
        }
    }
}

/// A factory that creates C2-class cubic segments from Hermite data: the
/// caller supplies only the end point and end velocity, and both the start
/// point and the start velocity are derived from the predecessor.
pub struct C2HermiteSegmentFactory {
    pub p1: Vector2,
    pub v1: Vector2,
}

impl C2HermiteSegmentFactory {
    /// Takes in the final velocity and control point. The first velocity and
    /// control point are extrapolated from the previous segment.
    pub fn new(p1: Vector2, v1: Vector2) -> (r: C2HermiteSegmentFactory)
        ensures
            r.p1 == p1,
            r.v1 == v1,
    {
        C2HermiteSegmentFactory { p1, v1 }
    }

    pub fn build(&self, previous_segment: Option<&SplineSegment>) -> (r: Result<
        SplineSegment,
        SplineError,
    >)
        ensures
            r is Ok <==> previous_segment is Some,
            (previous_value(previous_segment) matches Some(p) ==> (r matches Ok(s)
                && s matches SplineSegment::Cubic(c) && is_bezier_built(
                c,
                seg_sample(p, SCALE as int),
                hermite_inner_start(seg_sample(p, SCALE as int), seg_deriv(p, SCALE as int)),
                hermite_inner_end(self.p1@, self.v1@),
                self.p1@,
            ))),
            (r matches Err(e) ==> e.spec_error_type() == SplineErrorType::InvalidPreviousSegment
                && e.spec_message()
                == "C2HermiteSegmentFactory requires a previous segment for building"@),
    {
        match previous_segment {
            Some(previous_segment) => {
                let p0: Vector2 = previous_segment.sample(SCALE);
                let v0: Vector2 = previous_segment.derivative(SCALE);
                Ok(
                    SplineSegment::Cubic(
                        BezierSegment::new(
                            p0,
                            p0.plus(&v0.div_scalar(FX_THREE)),
                            self.p1.minus(&self.v1.div_scalar(FX_THREE)),
                            self.p1,
                        ),
                    ),
                )
            },
            None => Err(
                SplineError::new(
                    "C2HermiteSegmentFactory requires a previous segment for building",
                    &SplineErrorType::InvalidPreviousSegment,
                ),
            ),
        }
    }
}

/// The closed set of construction requests a spline accepts.
pub enum SplineSegmentFactory {
    Linear(LinearSegmentFactory),
    C0Bezier(C0CubicBezierSegmentFactory),
    C1Bezier(C1CubicBezierSegmentFactory),
    C1Hermite(C1HermiteSegmentFactory),
    C2Hermite(C2HermiteSegmentFactory),
}

/// Whether the factory structurally requires a predecessor segment.
pub open spec fn factory_needs_previous(f: SplineSegmentFactory) -> bool {
    match f {
        SplineSegmentFactory::Linear(_) => false,
        SplineSegmentFactory::C0Bezier(_) => false,
        SplineSegmentFactory::C1Bezier(_) => true,
        SplineSegmentFactory::C1Hermite(_) => true,
        SplineSegmentFactory::C2Hermite(_) => true,
    }
}

/// What a successful `build` produces from the factory's control data and
/// the previous segment.
pub open spec fn factory_builds(
    f: SplineSegmentFactory,
    previous: Option<SplineSegment>,
    s: SplineSegment,
) -> bool {
    match f {
        SplineSegmentFactory::Linear(lf) => s matches SplineSegment::Linear(l) && l.spec_p0()
            == lf.p0@ && l.spec_p1() == lf.p1@ && linear_wf(l),
        SplineSegmentFactory::C0Bezier(bf) => s matches SplineSegment::Cubic(c)
            && is_bezier_built(c, bf.p0@, bf.p1@, bf.p2@, bf.p3@),
        SplineSegmentFactory::C1Bezier(bf) => previous matches Some(p) && (
        s matches SplineSegment::Cubic(c) && is_bezier_built(
            c,
            seg_sample(p, SCALE as int),
            bf.p1@,
            bf.p2@,
            bf.p3@,
        )),
        SplineSegmentFactory::C1Hermite(hf) => previous matches Some(p) && (
        s matches SplineSegment::Cubic(c) && is_bezier_built(
            c,
            seg_sample(p, SCALE as int),
            hermite_inner_start(seg_sample(p, SCALE as int), hf.v0@),
            hermite_inner_end(hf.p1@, hf.v1@),
            hf.p1@,
        )),
        SplineSegmentFactory::C2Hermite(hf) => previous matches Some(p) && (
        s matches SplineSegment::Cubic(c) && is_bezier_built(
            c,
            seg_sample(p, SCALE as int),
            hermite_inner_start(seg_sample(p, SCALE as int), seg_deriv(p, SCALE as int)),
            hermite_inner_end(hf.p1@, hf.v1@),
            hf.p1@,
        )),
    }
}

/// One coordinate of the inherited start velocity: a third of the velocity
/// is exact when the raw value is divisible by three, and the change of
/// basis multiplies it back by three.
proof fn lemma_hermite_velocity_coordinate(q: int, w: int)
    requires
        -BEZIER_LAW_BOUND <= q <= BEZIER_LAW_BOUND,
        -BEZIER_LAW_BOUND <= w <= BEZIER_LAW_BOUND,
        w % 3 == 0,
    ensures
        fx_add(
            fx_mul(q, FX_NEG_THREE as int),
            fx_mul(fx_add(q, fx_div(w, FX_THREE as int)), FX_THREE as int),
        ) == w,
{
    let s = SCALE as int;
    lemma_fundamental_div_mod(w, 3);
    let m = w / 3;
    assert(w * s == m * (FX_THREE as int)) by (nonlinear_arith)
        requires
            w == 3 * m,
            s == 3_000_000,
            FX_THREE as int == 9_000_000,
    ;
    lemma_tdiv_exact(m, FX_THREE as int);
    assert(fx_div(w, FX_THREE as int) == m);
    assert(FX_NEG_THREE as int == -3 * s);
    assert(FX_THREE as int == 3 * s);
    lemma_fx_mul_whole(q, -3);
    lemma_fx_mul_whole(q + m, 3);
}

/// The C2-class Hermite factory inherits its start conditions from the
/// predecessor: the built segment starts exactly at the predecessor's end
/// sample, and its start derivative is exactly the predecessor's end
/// derivative whenever that derivative is divisible by three raw units (a
/// third of it must be representable for the conversion to lose nothing).
pub proof fn lemma_c2_hermite_inherits(
    prev: SplineSegment,
    f: C2HermiteSegmentFactory,
    c: CubicSegment,
)
    requires
        is_bezier_built(
            c,
            seg_sample(prev, SCALE as int),
            hermite_inner_start(seg_sample(prev, SCALE as int), seg_deriv(prev, SCALE as int)),
            hermite_inner_end(f.p1@, f.v1@),
            f.p1@,
        ),
        coord_bounded(seg_sample(prev, SCALE as int), BEZIER_LAW_BOUND as int),
        coord_bounded(seg_deriv(prev, SCALE as int), BEZIER_LAW_BOUND as int),
        seg_deriv(prev, SCALE as int).0 % 3 == 0,
        seg_deriv(prev, SCALE as int).1 % 3 == 0,
    ensures
        cubic_sample_spec(c, 0) == seg_sample(prev, SCALE as int),
        cubic_deriv_spec(c, 0) == seg_deriv(prev, SCALE as int),
{
    lemma_cubic_at_zero(c);
    let q0 = seg_sample(prev, SCALE as int);
    let w0 = seg_deriv(prev, SCALE as int);
    lemma_hermite_velocity_coordinate(q0.0, w0.0);
    lemma_hermite_velocity_coordinate(q0.1, w0.1);
}

impl SplineSegmentFactory {
    /// Builds a new segment, deriving inherited start conditions from the
    /// previous segment; fails exactly when the factory requires a
    /// predecessor and none is supplied.
    pub fn build(&self, previous_segment: Option<&SplineSegment>) -> (r: Result<
        SplineSegment,
        SplineError,
    >)
        ensures
            r is Ok <==> (!factory_needs_previous(*self) || previous_segment is Some),
            (r matches Ok(s) ==> factory_builds(*self, previous_value(previous_segment), s)),
            (r matches Err(e) ==> e.spec_error_type()
                == SplineErrorType::InvalidPreviousSegment),
    {
        match self {
            SplineSegmentFactory::Linear(f) => f.build(previous_segment),
            SplineSegmentFactory::C0Bezier(f) => f.build(previous_segment),
            SplineSegmentFactory::C1Bezier(f) => f.build(previous_segment),
            SplineSegmentFactory::C1Hermite(f) => f.build(previous_segment),
            SplineSegmentFactory::C2Hermite(f) => f.build(previous_segment),
        }
    }
}

} // verus!
