//! An ordered, append-only sequence of segments with a continuous global
//! parameter. The unit interval `[i, i+1)` of the global parameter maps onto
//! segment `i`'s local `[0, 1)` domain; out-of-range parameters degrade to
//! zero-vector or sentinel results rather than failing.

use vstd::prelude::*;
use vstd::arithmetic::div_mod::{
    lemma_div_multiples_vanish, lemma_fundamental_div_mod, lemma_fundamental_div_mod_converse_mod,
};
use vstd::arithmetic::mul::lemma_mul_inequality;
use crate::factories::{
    factory_builds, factory_needs_previous, previous_value, SplineSegmentFactory,
};
use crate::fixed::{fixed_add, fixed_sub, fx_add, fx_sub, sat64, SCALE};
use crate::spline_error::{SplineError, SplineErrorType};
use crate::spline_segment::{
    lemma_seg_arc_zero, lemma_seg_time_at_zero, lemma_seg_total_in_range, lemma_seg_total_nonneg,
    seg_arc, seg_deriv, seg_sample, seg_time_at, seg_time_from_guess, seg_total, seg_wf,
    SplineSegment,
};
use crate::vector2::Vector2;

verus! {

/// The sum of the total arc lengths of the first `n` segments, accumulated
/// left to right with saturating addition.
pub open spec fn prefix_total(segs: Seq<SplineSegment>, n: int) -> int
    decreases n,
{
    if n <= 0 {
        0
    } else {
        fx_add(prefix_total(segs, n - 1), seg_total(segs[n - 1]))
    }
}

pub open spec fn spline_total_spec(segs: Seq<SplineSegment>) -> int {
    prefix_total(segs, segs.len() as int)
}

/// The segment index a global parameter selects: its integer part, floored
/// at zero.
pub open spec fn global_index(t: int) -> int {
    if t < 0 {
        0
    } else {
        t / (SCALE as int)
    }
}

/// The local parameter within a segment: `t` minus its floor, always in
/// `[0, SCALE)`.
pub open spec fn local_param(t: int) -> int {
    t % (SCALE as int)
}

/// Sampling out of range (a negative parameter, an empty spline, or a
/// parameter at or beyond the segment count) yields the zero vector.
pub open spec fn spline_sample_spec(segs: Seq<SplineSegment>, t: int) -> (int, int) {
    if t < 0 || t >= segs.len() * (SCALE as int) {
        (0, 0)
    } else {
        seg_sample(segs[global_index(t)], local_param(t))
    }
}

pub open spec fn spline_deriv_spec(segs: Seq<SplineSegment>, t: int) -> (int, int) {
    if t < 0 || t >= segs.len() * (SCALE as int) {
        (0, 0)
    } else {
        seg_deriv(segs[global_index(t)], local_param(t))
    }
}

/// Cumulative arc length at a global parameter: the totals of the fully
/// covered segments plus the partial arc of the segment containing `t`.
/// Beyond the segment count the result is the zero sentinel, not the true
/// total.
pub open spec fn spline_arc_spec(segs: Seq<SplineSegment>, t: int) -> int {
    if t > segs.len() * (SCALE as int) {
        0
    } else {
        let idx = global_index(t);
        if idx < segs.len() {
            fx_add(prefix_total(segs, idx), seg_arc(segs[idx], local_param(t)))
        } else {
            prefix_total(segs, segs.len() as int)
        }
    }
}

/// The walk that inverts a cumulative arc length: skip whole segments while
/// the accumulated total stays at or below the target, then invert locally
/// (with each segment's default guess) in the segment reached.
pub open spec fn time_walk(segs: Seq<SplineSegment>, arc_length: int, i: int, acc: int) -> int
    decreases segs.len() - i,
{
    if i < 0 || i >= segs.len() {
        0
    } else {
        let next = fx_add(acc, seg_total(segs[i]));
        if arc_length >= next {
            time_walk(segs, arc_length, i + 1, next)
        } else {
            fx_add(sat64(i * (SCALE as int)), seg_time_at(segs[i], fx_sub(arc_length, acc)))
        }
    }
}

/// The same walk, seeding the matched segment's inversion with the explicit
/// local guess.
pub open spec fn time_walk_guess(
    segs: Seq<SplineSegment>,
    arc_length: int,
    guess_local: int,
    i: int,
    acc: int,
) -> int
    decreases segs.len() - i,
{
    if i < 0 || i >= segs.len() {
        0
    } else {
        let next = fx_add(acc, seg_total(segs[i]));
        if arc_length >= next {
            time_walk_guess(segs, arc_length, guess_local, i + 1, next)
        } else {
            fx_add(
                sat64(i * (SCALE as int)),
                seg_time_from_guess(segs[i], fx_sub(arc_length, acc), guess_local),
            )
        }
    }
}

/// Inversion with each segment's default guess. At or beyond the spline's
/// total arc length the result saturates to the segment count.
pub open spec fn spline_time_spec(segs: Seq<SplineSegment>, arc_length: int) -> int {
    if arc_length >= spline_total_spec(segs) {
        sat64(segs.len() * (SCALE as int))
    } else {
        time_walk(segs, arc_length, 0, 0)
    }
}

/// Inversion from an explicit guess: the guess's fractional part seeds the
/// matched segment's local inversion.
pub open spec fn spline_time_guess_spec(
    segs: Seq<SplineSegment>,
    arc_length: int,
    initial_guess: int,
) -> int {
    if arc_length >= spline_total_spec(segs) {
        sat64(segs.len() * (SCALE as int))
    } else {
        time_walk_guess(segs, arc_length, local_param(initial_guess), 0, 0)
    }
}

/// The last segment of a sequence, if any; what `add_segment` hands to the
/// factory.
pub open spec fn spline_last(segs: Seq<SplineSegment>) -> Option<SplineSegment> {
    if segs.len() == 0 {
        Option::None
    } else {
        Option::Some(segs.last())
    }
}

/// A series of segments forming a spline in 2D space.
///
/// The recommended way to construct splines is the `add_segment` method: it
/// hands each factory the previously built segment, so the spline maintains
/// whatever continuity the factories derive.
pub struct Spline {
    segments: Vec<SplineSegment>,
}

impl View for Spline {
    type V = Seq<SplineSegment>;

    closed spec fn view(&self) -> Seq<SplineSegment> {
        self.segments@
    }
}

/// For a nonnegative parameter, crossing the segment count is the same as
/// the selected index reaching it.
proof fn lemma_index_reaches_len(t: int, len: int)
    requires
        t >= 0,
        len >= 0,
    ensures
        (t / (SCALE as int) >= len) <==> (t >= len * (SCALE as int)),
{
    let s = SCALE as int;
    lemma_fundamental_div_mod(t, s);
    if t / s >= len {
        lemma_mul_inequality(len, t / s, s);
    } else {
        lemma_mul_inequality(t / s + 1, len, s);
    }
}

/// Local parameter of a possibly negative global parameter: the Euclidean
/// remainder, matching `t - floor(t)`.
fn fract_param(t: i64) -> (r: i64)
    ensures
        r as int == local_param(t as int),
        0 <= r < SCALE,
{
    if t >= 0 {
        ((t as u64) % (SCALE as u64)) as i64
    } else {
        let n: u128 = (-(t as i128)) as u128;
        let m: u128 = n % (SCALE as u128);
        proof {
            let s = SCALE as int;
            lemma_fundamental_div_mod(n as int, s);
            let q = (n as int) / s;
            if m == 0 {
                lemma_fundamental_div_mod_converse_mod(t as int, s, -q, 0);
            } else {
                lemma_fundamental_div_mod_converse_mod(t as int, s, -q - 1, s - m);
            }
        }
        if m == 0 {
            0
        } else {
            ((SCALE as u128) - m) as i64
        }
    }
}

/// The segment count as a global parameter, saturated to the `i64` range.
fn scaled_count(len: usize) -> (r: i64)
    ensures
        r as int == sat64(len as int * (SCALE as int)),
{
    proof {
        assert(0 <= (len as int) * (SCALE as int) <= i128::MAX) by (nonlinear_arith)
            requires
                0 <= len as int <= u64::MAX,
                SCALE as int == 3_000_000,
        ;
    }
    let p: i128 = (len as i128) * (SCALE as i128);
    if p > i64::MAX as i128 {
        i64::MAX
    } else {
        p as i64
    }
}

impl Spline {
    /// Creates a spline from an initial array of segments. It's not
    /// recommended to provide more than perhaps one initial segment; see
    /// `add_segment` for adding segments.
    pub fn from_segments(segments: Vec<SplineSegment>) -> (r: Spline)
        ensures
            r@ == segments@,
    {
        Spline { segments }
    }

    /// Creates a new, empty spline.
    pub fn new() -> (r: Spline)
        ensures
            r@ == Seq::<SplineSegment>::empty(),
    {
        Spline::from_segments(Vec::new())
    }

    /// Extends the spline: hands the factory the last segment, and appends
    /// the newly built segment. On failure the spline is unchanged and the
    /// factory's error is returned.
    pub fn add_segment(&mut self, factory: &SplineSegmentFactory) -> (r: Result<(), SplineError>)
        ensures
            r is Ok <==> (!factory_needs_previous(*factory) || old(self)@.len() > 0),
            (r is Ok ==> final(self)@.len() == old(self)@.len() + 1 && final(self)@ =~= old(
                self,
            )@.push(final(self)@.last()) && factory_builds(
                *factory,
                spline_last(old(self)@),
                final(self)@.last(),
            )),
            (r matches Err(e) ==> final(self)@ == old(self)@ && e.spec_error_type()
                == SplineErrorType::InvalidPreviousSegment),
    {
        let previous: Option<&SplineSegment> = if self.segments.len() > 0 {
            Some(&self.segments[self.segments.len() - 1])
        } else {
            None
        };
        proof {
            assert(previous_value(previous) == spline_last(self@));
        }
        match factory.build(previous) {
            Ok(segment) => {
                self.segments.push(segment);
                Ok(())
            },
            Err(e) => Err(e),
        }
    }

    /// Samples the spline at a global parameter; out of range, the zero
    /// vector.
    pub fn sample(&self, t: i64) -> (r: Vector2)
        ensures
            r@ == spline_sample_spec(self@, t as int),
    {
        if t < 0 {
            return Vector2::default();
        }
        let len: usize = self.segments.len();
        let q: u64 = (t as u64) / (SCALE as u64);
        proof {
            lemma_index_reaches_len(t as int, len as int);
        }
        if q >= len as u64 {
            return Vector2::default();
        }
        let local: i64 = ((t as u64) % (SCALE as u64)) as i64;
        self.segments[q as usize].sample(local)
    }

    /// Samples the spline's derivative (not normalized) at a global
    /// parameter; out of range, the zero vector.
    pub fn derivative(&self, t: i64) -> (r: Vector2)
        ensures
            r@ == spline_deriv_spec(self@, t as int),
    {
        if t < 0 {
            return Vector2::default();
        }
        let len: usize = self.segments.len();
        let q: u64 = (t as u64) / (SCALE as u64);
        proof {
            lemma_index_reaches_len(t as int, len as int);
        }
        if q >= len as u64 {
            return Vector2::default();
        }
        let local: i64 = ((t as u64) % (SCALE as u64)) as i64;
        self.segments[q as usize].derivative(local)
    }

    /// Cumulative arc length from the spline's start to a global parameter:
    /// the totals of all fully covered segments plus the partial arc of the
    /// segment containing `t`. Beyond the segment count the zero sentinel is
    /// returned.
    pub fn arc_length(&self, t: i64) -> (r: i64)
        ensures
            r as int == spline_arc_spec(self@, t as int),
    {
        let len: usize = self.segments.len();
        let mut idx_u: u64 = 0;
        if t >= 0 {
            proof {
                assert(0 <= (len as int) * (SCALE as int) <= u128::MAX) by (nonlinear_arith)
                    requires
                        0 <= len as int <= u64::MAX,
                        SCALE as int == 3_000_000,
                ;
            }
            if (t as u128) > (len as u128) * (SCALE as u128) {
                return 0;
            }
            idx_u = (t as u64) / (SCALE as u64);
            proof {
                lemma_index_reaches_len(t as int, len as int);
            }
        }
        let local: i64 = fract_param(t);
        let mut length: i64 = 0;
        let mut i: usize = 0;
        while i < len && (i as u64) < idx_u
            invariant
                i <= len,
                len == self@.len(),
                i as int <= global_index(t as int),
                idx_u as int == global_index(t as int),
                length as int == prefix_total(self@, i as int),
            decreases len - i,
        {
            length = fixed_add(length, self.segments[i].total_arc_length());
            i = i + 1;
        }
        if i < len {
            length = fixed_add(length, self.segments[i].arc_length(local));
        }
        length
    }

    /// The total arc length of the spline: the sum of every segment's total.
    pub fn total_arc_length(&self) -> (r: i64)
        ensures
            r as int == spline_total_spec(self@),
    {
        let len: usize = self.segments.len();
        let mut total: i64 = 0;
        let mut i: usize = 0;
        while i < len
            invariant
                i <= len,
                len == self@.len(),
                total as int == prefix_total(self@, i as int),
            decreases len - i,
        {
            total = fixed_add(total, self.segments[i].total_arc_length());
            i = i + 1;
        }
        total
    }

    /// Given an arc length `L`, finds the global parameter `t` at which
    /// `arc_length(t)` is near `L`, walking the segments and inverting
    /// locally in the one reached. At or beyond the total arc length the
    /// result saturates to the segment count.
    #[verifier::rlimit(60)]
    pub fn time_at_arc_length(&self, arc_length: i64) -> (r: i64)
        ensures
            r as int == spline_time_spec(self@, arc_length as int),
    {
        let len: usize = self.segments.len();
        let total: i64 = self.total_arc_length();
        if arc_length >= total {
            return scaled_count(len);
        }
        let mut running: i64 = 0;
        let mut i: usize = 0;
        while i < len
            invariant
                i <= len,
                len == self@.len(),
                (arc_length as int) < spline_total_spec(self@),
                time_walk(self@, arc_length as int, 0, 0) == time_walk(
                    self@,
                    arc_length as int,
                    i as int,
                    running as int,
                ),
            decreases len - i,
        {
            let segment_length: i64 = self.segments[i].total_arc_length();
            let next: i64 = fixed_add(running, segment_length);
            if arc_length >= next {
                running = next;
            } else {
                let local: i64 = self.segments[i].time_at_arc_length(
                    fixed_sub(arc_length, running),
                );
                proof {
                    assert(time_walk(self@, arc_length as int, i as int, running as int)
                        == fx_add(
                        sat64(i as int * (SCALE as int)),
                        seg_time_at(self@[i as int], fx_sub(arc_length as int, running as int)),
                    ));
                }
                return fixed_add(scaled_count(i), local);
            }
            i = i + 1;
        }
        0
    }

    /// Works as `time_at_arc_length`, but seeds the matched segment's
    /// inversion with the fractional part of an explicit first guess.
    #[verifier::rlimit(60)]
    pub fn time_at_arc_length_from_guess(&self, arc_length: i64, initial_guess: i64) -> (r: i64)
        ensures
            r as int == spline_time_guess_spec(self@, arc_length as int, initial_guess as int),
    {
        let len: usize = self.segments.len();
        let total: i64 = self.total_arc_length();
        if arc_length >= total {
            return scaled_count(len);
        }
        let guess_local: i64 = fract_param(initial_guess);
        let mut running: i64 = 0;
        let mut i: usize = 0;
        while i < len
            invariant
                i <= len,
                len == self@.len(),
                (arc_length as int) < spline_total_spec(self@),
                guess_local as int == local_param(initial_guess as int),
                time_walk_guess(self@, arc_length as int, guess_local as int, 0, 0)
                    == time_walk_guess(
                    self@,
                    arc_length as int,
                    guess_local as int,
                    i as int,
                    running as int,
                ),
            decreases len - i,
        {
            let segment_length: i64 = self.segments[i].total_arc_length();
            let next: i64 = fixed_add(running, segment_length);
            if arc_length >= next {
                running = next;
            } else {
                let local: i64 = self.segments[i].time_at_arc_length_from_guess(
                    fixed_sub(arc_length, running),
                    guess_local,
                );
                proof {
                    assert(time_walk_guess(
                        self@,
                        arc_length as int,
                        guess_local as int,
                        i as int,
                        running as int,
                    ) == fx_add(
                        sat64(i as int * (SCALE as int)),
                        seg_time_from_guess(
                            self@[i as int],
                            fx_sub(arc_length as int, running as int),
                            guess_local as int,
                        ),
                    ));
                }
                return fixed_add(scaled_count(i), local);
            }
            i = i + 1;
        }
        0
    }
}

/// Prefix totals are clamped values, so they always lie in the `i64` range.
proof fn lemma_prefix_total_in_range(segs: Seq<SplineSegment>, n: int)
    ensures
        i64::MIN <= prefix_total(segs, n) <= i64::MAX,
{
    if n <= 0 {
    } else {
        assert(prefix_total(segs, n) == fx_add(prefix_total(segs, n - 1), seg_total(segs[n - 1])));
    }
}

/// At a whole global parameter `i`, the cumulative arc length is exactly the
/// sum of the totals of the first `i` segments: the partial arc of the
/// segment reached is the arc at local parameter zero, which is zero.
pub proof fn lemma_spline_arc_at_boundary(segs: Seq<SplineSegment>, i: int)
    requires
        0 <= i <= segs.len(),
        i * (SCALE as int) <= i64::MAX as int,
    ensures
        spline_arc_spec(segs, i * (SCALE as int)) == prefix_total(segs, i),
{
    let s = SCALE as int;
    let t = i * s;
    assert(i * s >= 0) by (nonlinear_arith)
        requires
            i >= 0,
            s > 0,
    ;
    lemma_mul_inequality(i, segs.len() as int, s);
    lemma_div_multiples_vanish(i, s);
    assert(s * i == i * s) by (nonlinear_arith);
    lemma_fundamental_div_mod_converse_mod(t, s, i, 0);
    if i < segs.len() {
        lemma_seg_arc_zero(segs[i]);
        lemma_prefix_total_in_range(segs, i);
    }
}

/// At or beyond the spline's total arc length, inversion returns the segment
/// count as a saturating sentinel.
pub proof fn lemma_time_at_total_saturates(segs: Seq<SplineSegment>, arc_length: int)
    requires
        arc_length >= spline_total_spec(segs),
    ensures
        spline_time_spec(segs, arc_length) == sat64(segs.len() * (SCALE as int)),
{
}

/// With every segment well formed, the prefix totals never drop below the
/// first segment's total.
proof fn lemma_prefix_total_ge_first(segs: Seq<SplineSegment>, n: int)
    requires
        1 <= n <= segs.len(),
        forall|j: int| 0 <= j < segs.len() ==> seg_wf(#[trigger] segs[j]),
    ensures
        prefix_total(segs, n) >= seg_total(segs[0]),
    decreases n,
{
    if n == 1 {
        lemma_seg_total_in_range(segs[0]);
        assert(prefix_total(segs, 0) == 0);
        assert(prefix_total(segs, 1) == fx_add(0, seg_total(segs[0])));
    } else {
        lemma_prefix_total_ge_first(segs, n - 1);
        lemma_seg_total_nonneg(segs[n - 1]);
        lemma_prefix_total_in_range(segs, n - 1);
    }
}

/// Inverting arc length zero returns parameter zero whenever the first
/// segment has positive length (degenerate leading segments would be
/// skipped instead).
pub proof fn lemma_time_at_zero(segs: Seq<SplineSegment>)
    requires
        segs.len() > 0,
        seg_total(segs[0]) > 0,
        forall|j: int| 0 <= j < segs.len() ==> seg_wf(#[trigger] segs[j]),
    ensures
        spline_time_spec(segs, 0) == 0,
{
    lemma_prefix_total_ge_first(segs, segs.len() as int);
    lemma_seg_time_at_zero(segs[0]);
    assert(0 * (SCALE as int) == 0);
}

} // verus!
