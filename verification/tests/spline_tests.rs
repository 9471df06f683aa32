use splines::cubic_segment::BezierSegment;
use splines::factories::{
    C0CubicBezierSegmentFactory, C1CubicBezierSegmentFactory, C1HermiteSegmentFactory,
    C2HermiteSegmentFactory, LinearSegmentFactory, SplineSegmentFactory,
};
use splines::fixed::SCALE;
use splines::linear_segment::LinearSegment;
use splines::spline::Spline;
use splines::spline_error::SplineErrorType;
use splines::vector2::Vector2;

/// A vector given in whole units.
fn units(x: i64, y: i64) -> Vector2 {
    Vector2::new(x * SCALE, y * SCALE)
}

#[test]
fn linear_segment() {
    let segment = LinearSegment::new(units(1, 1), units(2, 2));

    assert_eq!(segment.sample(0), units(1, 1));
    assert_eq!(segment.sample(SCALE / 5), Vector2::new(SCALE + SCALE / 5, SCALE + SCALE / 5));
    assert_eq!(segment.sample(SCALE), units(2, 2));

    assert_eq!(segment.derivative(0), units(1, 1));
    assert_eq!(segment.derivative(SCALE / 5), units(1, 1));
    assert_eq!(segment.derivative(SCALE), units(1, 1));
}

#[test]
fn linear_factory() {
    let factory = LinearSegmentFactory::new(units(0, 1), units(1, 0));
    let segment = factory.build(None).unwrap();

    assert_eq!(segment.sample(SCALE / 2), Vector2::new(SCALE / 2, SCALE / 2));
    assert_eq!(segment.derivative(SCALE / 2), units(1, -1));

    let segment = factory.build(Some(&segment)).unwrap();

    assert_eq!(segment.sample(SCALE / 2), Vector2::new(SCALE / 2, SCALE / 2));
    assert_eq!(segment.derivative(SCALE / 2), units(1, -1));
}

#[test]
fn vector_magnitude_is_euclidean_length() {
    assert_eq!(units(3, 4).magnitude(), 5 * SCALE);
    assert_eq!(units(0, 0).magnitude(), 0);
    assert_eq!(units(-3, -4).magnitude(), 5 * SCALE);
    // A non-square distance rounds down to the nearest raw unit.
    assert_eq!(units(1, 1).magnitude(), 4_242_640);
}

#[test]
fn linear_arc_length_closed_form() {
    let segment = LinearSegment::new(units(0, 0), units(3, 4));
    assert_eq!(segment.total_arc_length(), 5 * SCALE);
    assert_eq!(segment.arc_length(SCALE), 5 * SCALE);
    assert_eq!(segment.arc_length(SCALE / 2), 5 * SCALE / 2);
    assert_eq!(segment.arc_length(0), 0);
}

#[test]
fn linear_round_trip_is_exact_here() {
    let segment = LinearSegment::new(units(0, 0), units(3, 4));
    let t0: i64 = 1_110_000;  // 0.37
    let arc = segment.arc_length(t0);
    let back = segment.time_at_arc_length(arc);
    assert!(back <= t0);
    assert!(t0 - back <= SCALE / segment.total_arc_length() + 1);
    assert_eq!(back, t0);
    // The guess-based variant ignores the guess for linear segments.
    assert_eq!(segment.time_at_arc_length_from_guess(arc, 12_345), t0);
}

#[test]
fn bezier_segment_hits_first_and_last_control_points() {
    let segment = BezierSegment::new(units(1, 1), units(1, 2), units(2, 1), units(2, 2));
    assert_eq!(segment.sample(0), units(1, 1));
    assert_eq!(segment.sample(SCALE), units(2, 2));
}

#[test]
fn c0_bezier_factory_needs_no_predecessor() {
    let factory = C0CubicBezierSegmentFactory::new(units(1, 1), units(1, 2), units(2, 1), units(2, 2));
    let segment = factory.build(None).unwrap();
    assert_eq!(segment.sample(0), units(1, 1));
    assert_eq!(segment.sample(SCALE), units(2, 2));
}

#[test]
fn cubic_total_is_cached_and_stable() {
    let factory = C0CubicBezierSegmentFactory::new(units(1, 1), units(1, 2), units(2, 1), units(2, 2));
    let segment = factory.build(None).unwrap();
    let first = segment.total_arc_length();
    // Interleave other queries; the cached total must not move.
    let _ = segment.sample(SCALE / 2);
    let _ = segment.arc_length(SCALE / 2);
    let _ = segment.time_at_arc_length(first / 2);
    let second = segment.total_arc_length();
    assert_eq!(first, second);
    assert_eq!(first, segment.arc_length(SCALE));
}

#[test]
fn cubic_round_trip_within_tolerance() {
    let factory = C0CubicBezierSegmentFactory::new(units(1, 1), units(1, 2), units(2, 1), units(2, 2));
    let segment = factory.build(None).unwrap();
    for t0 in [600_000i64, 1_500_000, 2_400_000] {
        let arc = segment.arc_length(t0);
        let back = segment.time_at_arc_length(arc);
        assert!((back - t0).abs() <= 10_000, "t0={t0} back={back}");
    }
}

#[test]
fn predecessor_requiring_factories_fail_without_one() {
    let c1_bezier = C1CubicBezierSegmentFactory::new(units(0, 1), units(1, 1), units(1, 0));
    let err = c1_bezier.build(None).unwrap_err();
    assert_eq!(err.error_type(), SplineErrorType::InvalidPreviousSegment);
    assert_eq!(err.message(), "C1CubicBezierSegmentFactory requires a previous segment for building");

    let c1_hermite = C1HermiteSegmentFactory::new(units(0, 1), units(1, 1), units(1, 0));
    let err = c1_hermite.build(None).unwrap_err();
    assert_eq!(err.error_type(), SplineErrorType::InvalidPreviousSegment);

    let c2_hermite = C2HermiteSegmentFactory::new(units(1, 1), units(1, 0));
    let err = c2_hermite.build(None).unwrap_err();
    assert_eq!(err.error_type(), SplineErrorType::InvalidPreviousSegment);
}

#[test]
fn add_segment_on_empty_spline_propagates_the_error() {
    let mut spline = Spline::new();
    let factory = SplineSegmentFactory::C2Hermite(C2HermiteSegmentFactory::new(
        units(5, 0),
        units(1, 0),
    ));
    let err = spline.add_segment(&factory).unwrap_err();
    assert_eq!(err.error_type(), SplineErrorType::InvalidPreviousSegment);
    // The failed append left the spline empty: sampling anywhere degenerates.
    assert_eq!(spline.sample(0), Vector2::new(0, 0));
    assert_eq!(spline.total_arc_length(), 0);
}

#[test]
fn c2_hermite_inherits_start_point_and_velocity_exactly() {
    let mut spline = Spline::new();
    let first = SplineSegmentFactory::Linear(LinearSegmentFactory::new(units(0, 0), units(1, 0)));
    spline.add_segment(&first).unwrap();
    let second = SplineSegmentFactory::C2Hermite(C2HermiteSegmentFactory::new(
        units(5, 0),
        units(1, 0),
    ));
    spline.add_segment(&second).unwrap();

    // Global parameter 1.0 is the second segment's local 0: the derived
    // start point and velocity equal the linear segment's end sample and
    // end derivative, exactly.
    assert_eq!(spline.sample(SCALE), units(1, 0));
    assert_eq!(spline.derivative(SCALE), units(1, 0));
    // And they match the first segment's own end values.
    assert_eq!(spline.sample(SCALE - 1), Vector2::new(SCALE - 1, 0));
    assert_eq!(spline.derivative(0), units(1, 0));
}

#[test]
fn c1_factories_take_the_previous_end_point() {
    let mut spline = Spline::new();
    let first = SplineSegmentFactory::Linear(LinearSegmentFactory::new(units(0, 0), units(1, 0)));
    spline.add_segment(&first).unwrap();

    let bezier = SplineSegmentFactory::C1Bezier(C1CubicBezierSegmentFactory::new(
        units(2, 1),
        units(3, -1),
        units(4, 0),
    ));
    spline.add_segment(&bezier).unwrap();
    assert_eq!(spline.sample(SCALE), units(1, 0));

    let hermite = SplineSegmentFactory::C1Hermite(C1HermiteSegmentFactory::new(
        units(3, 0),
        units(5, 5),
        units(0, 3),
    ));
    spline.add_segment(&hermite).unwrap();
    assert_eq!(spline.sample(2 * SCALE), units(4, 0));
}

fn three_segment_spline() -> Spline {
    let mut spline = Spline::new();
    spline
        .add_segment(&SplineSegmentFactory::Linear(LinearSegmentFactory::new(
            units(0, 0),
            units(1, 0),
        )))
        .unwrap();
    spline
        .add_segment(&SplineSegmentFactory::Linear(LinearSegmentFactory::new(
            units(1, 0),
            units(1, 2),
        )))
        .unwrap();
    spline
        .add_segment(&SplineSegmentFactory::C0Bezier(C0CubicBezierSegmentFactory::new(
            units(1, 2),
            units(2, 2),
            units(3, 2),
            units(4, 2),
        )))
        .unwrap();
    spline
}

#[test]
fn spline_arc_length_at_whole_parameters_sums_prefix_totals() {
    let spline = three_segment_spline();
    let first: i64 = SCALE;  // |(1,0) - (0,0)|
    let second: i64 = 2 * SCALE;  // |(1,2) - (1,0)|
    let third = spline.arc_length(3 * SCALE) - first - second;
    assert_eq!(spline.arc_length(0), 0);
    assert_eq!(spline.arc_length(SCALE), first);
    assert_eq!(spline.arc_length(2 * SCALE), first + second);
    assert_eq!(spline.total_arc_length(), first + second + third);
}

#[test]
fn spline_arc_length_beyond_the_domain_is_the_zero_sentinel() {
    let spline = three_segment_spline();
    assert_eq!(spline.arc_length(3 * SCALE + 1), 0);
    assert_eq!(spline.arc_length(i64::MAX), 0);
}

#[test]
fn spline_sampling_out_of_range_degenerates_to_zero() {
    let spline = three_segment_spline();
    assert_eq!(spline.sample(-1), Vector2::new(0, 0));
    assert_eq!(spline.sample(3 * SCALE), Vector2::new(0, 0));
    assert_eq!(spline.derivative(-1), Vector2::new(0, 0));
    assert_eq!(spline.derivative(3 * SCALE), Vector2::new(0, 0));
    let empty = Spline::new();
    assert_eq!(empty.sample(0), Vector2::new(0, 0));
    assert_eq!(empty.derivative(0), Vector2::new(0, 0));
}

#[test]
fn spline_time_at_arc_length_saturates_and_starts_at_zero() {
    let spline = three_segment_spline();
    let total = spline.total_arc_length();
    assert_eq!(spline.time_at_arc_length(total), 3 * SCALE);
    assert_eq!(spline.time_at_arc_length(total + 1), 3 * SCALE);
    assert_eq!(spline.time_at_arc_length(0), 0);
    let empty = Spline::new();
    assert_eq!(empty.time_at_arc_length(0), 0);
}

#[test]
fn spline_inversion_lands_in_the_right_segment() {
    let spline = three_segment_spline();
    // Halfway through the second segment: lengths 1 and 2, so L = 2 is the
    // second segment's midpoint, at global parameter 1.5.
    let t = spline.time_at_arc_length(2 * SCALE);
    assert_eq!(t, SCALE + SCALE / 2);
    let t = spline.time_at_arc_length_from_guess(2 * SCALE, SCALE + SCALE / 3);
    assert_eq!(t, SCALE + SCALE / 2);
}

#[test]
fn spline_round_trip_through_a_cubic_segment() {
    let spline = three_segment_spline();
    let t0 = 2 * SCALE + SCALE / 2;
    let arc = spline.arc_length(t0);
    let back = spline.time_at_arc_length(arc);
    assert!((back - t0).abs() <= 10_000, "back={back}");
    let back = spline.time_at_arc_length_from_guess(arc, t0 - 100_000);
    assert!((back - t0).abs() <= 10_000, "back={back}");
}

#[test]
fn spline_global_parameter_selects_segments() {
    let spline = three_segment_spline();
    assert_eq!(spline.sample(0), units(0, 0));
    assert_eq!(spline.sample(SCALE / 2), Vector2::new(SCALE / 2, 0));
    assert_eq!(spline.sample(SCALE), units(1, 0));
    assert_eq!(spline.sample(SCALE + SCALE / 2), Vector2::new(SCALE, SCALE));
    assert_eq!(spline.sample(2 * SCALE), units(1, 2));
    assert_eq!(spline.sample(3 * SCALE - 1).y, 2 * SCALE);
}

#[test]
fn from_segments_keeps_the_given_order() {
    let a = LinearSegmentFactory::new(units(0, 0), units(1, 0)).build(None).unwrap();
    let b = LinearSegmentFactory::new(units(1, 0), units(1, 2)).build(None).unwrap();
    let spline = Spline::from_segments(vec![a, b]);
    assert_eq!(spline.sample(0), units(0, 0));
    assert_eq!(spline.sample(SCALE + SCALE / 2), Vector2::new(SCALE, SCALE));
    assert_eq!(spline.total_arc_length(), 3 * SCALE);
}

#[test]
fn vector_operations() {
    let a = Vector2::new(1_000_000, -2_000_000);
    let b = Vector2::new(500_000, 500_000);
    assert_eq!(a.plus(&b), Vector2::new(1_500_000, -1_500_000));
    assert_eq!(a.minus(&b), Vector2::new(500_000, -2_500_000));
    assert_eq!(a.negated(), Vector2::new(-1_000_000, 2_000_000));
    // Scaling by 2.0 (two whole units of the fixed-point scale).
    assert_eq!(a.scaled(2 * SCALE), Vector2::new(2_000_000, -4_000_000));
    assert_eq!(a.div_scalar(2 * SCALE), Vector2::new(500_000, -1_000_000));
    assert_eq!(a.div_scalar(0), Vector2::new(0, 0));
    assert_eq!(Vector2::default(), Vector2::new(0, 0));
    // Saturation instead of overflow.
    let big = Vector2::new(i64::MAX, i64::MIN);
    assert_eq!(big.plus(&big), Vector2::new(i64::MAX, i64::MIN));
    assert_eq!(big.negated(), Vector2::new(-i64::MAX, i64::MAX));
}
