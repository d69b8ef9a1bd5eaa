//! The series transformer: turns fetched samples into plot-ready points
//! (age in whole hours, sign-flipped) and computes the padded value-axis
//! bounds over both readings of every sample.

use vstd::prelude::*;

use crate::model::AxisBounds;
use crate::model::PlotPoint;
use crate::model::Sample;
use crate::model::READING_LIMIT;
use crate::model::SECONDS_PER_HOUR;
use crate::model::VALUE_MARGIN;

verus! {

/// The plotted age of a sample taken at `ts`, seen from `now`: the number
/// of whole hours between the two instants, truncated toward zero and
/// sign-flipped, so that a sample taken exactly now maps to 0 and older
/// samples map to negative values.
pub open spec fn hours_ago_of(now: int, ts: int) -> int
    recommends
        ts <= now,
{
    -((now - ts) / (SECONDS_PER_HOUR as int))
}

/// The plot point that one sample maps to.
pub open spec fn plot_point_of(s: Sample, now: int) -> PlotPoint {
    PlotPoint {
        hours_ago: hours_ago_of(now, s.timestamp as int) as i64,
        internal_reading: s.internal_reading,
        external_reading: s.external_reading,
    }
}

/// The plot points of the whole sequence, in delivery order.
pub open spec fn plot_points_of(samples: Seq<Sample>, now: int) -> Seq<PlotPoint> {
    samples.map_values(|s: Sample| plot_point_of(s, now))
}

/// The smaller of a sample's two readings.
pub open spec fn sample_min(s: Sample) -> int {
    vstd::math::min(s.internal_reading as int, s.external_reading as int)
}

/// The larger of a sample's two readings.
pub open spec fn sample_max(s: Sample) -> int {
    vstd::math::max(s.internal_reading as int, s.external_reading as int)
}

/// The combined minimum over both readings of every sample.
pub open spec fn min_reading(samples: Seq<Sample>) -> int
    recommends
        samples.len() > 0,
    decreases samples.len(),
{
    if samples.len() <= 1 {
        sample_min(samples[0])
    } else {
        vstd::math::min(min_reading(samples.drop_last()), sample_min(samples.last()))
    }
}

/// The combined maximum over both readings of every sample.
pub open spec fn max_reading(samples: Seq<Sample>) -> int
    recommends
        samples.len() > 0,
    decreases samples.len(),
{
    if samples.len() <= 1 {
        sample_max(samples[0])
    } else {
        vstd::math::max(max_reading(samples.drop_last()), sample_max(samples.last()))
    }
}

fn min2(a: i64, b: i64) -> (r: i64)
    ensures
        r == vstd::math::min(a as int, b as int),
{
    if a < b {
        a
    } else {
        b
    }
}

fn max2(a: i64, b: i64) -> (r: i64)
    ensures
        r == vstd::math::max(a as int, b as int),
{
    if a > b {
        a
    } else {
        b
    }
}

/// Maps one sample to its plot point: the readings carried over unchanged
/// and the age turned into whole hours, truncated toward zero and
/// sign-flipped.
pub fn to_plot_point(s: &Sample, now: i64) -> (p: PlotPoint)
    requires
        s.taken_before(now),
    ensures
        p.hours_ago == hours_ago_of(now as int, s.timestamp as int),
        p.internal_reading == s.internal_reading,
        p.external_reading == s.external_reading,
        -(i64::MAX as int) <= p.hours_ago <= 0,
{
    let age: u64 = (now - s.timestamp) as u64;
    let hours: u64 = age / SECONDS_PER_HOUR;
    proof {
        assert(hours <= age) by {
            vstd::arithmetic::div_mod::lemma_div_is_ordered_by_denominator(
                age as int,
                1,
                SECONDS_PER_HOUR as int,
            );
        }
    }
    let hours_ago: i64 = -(hours as i64);
    PlotPoint { hours_ago, internal_reading: s.internal_reading, external_reading: s.external_reading }
}

/// Transforms the whole fetched sequence, one plot point per sample, in
/// the order the store delivered them.
pub fn to_plot_points(samples: &Vec<Sample>, now: i64) -> (points: Vec<PlotPoint>)
    requires
        forall|i: int| 0 <= i < samples@.len() ==> (#[trigger] samples@[i]).taken_before(now),
    ensures
        points@.len() == samples@.len(),
        forall|i: int| 0 <= i < samples@.len() ==> {
            &&& (#[trigger] points@[i]).hours_ago == hours_ago_of(
                now as int,
                samples@[i].timestamp as int,
            )
            &&& points@[i].internal_reading == samples@[i].internal_reading
            &&& points@[i].external_reading == samples@[i].external_reading
        },
        points@ == plot_points_of(samples@, now as int),
{
    let mut points: Vec<PlotPoint> = Vec::new();
    let mut i: usize = 0;
    while i < samples.len()
        invariant
            0 <= i <= samples@.len(),
            points@.len() == i,
            forall|k: int| 0 <= k < samples@.len() ==> (#[trigger] samples@[k]).taken_before(now),
            forall|k: int| 0 <= k < i ==> {
                &&& (#[trigger] points@[k]).hours_ago == hours_ago_of(
                    now as int,
                    samples@[k].timestamp as int,
                )
                &&& points@[k].internal_reading == samples@[k].internal_reading
                &&& points@[k].external_reading == samples@[k].external_reading
            },
        decreases samples@.len() - i,
    {
        let p = to_plot_point(&samples[i], now);
        points.push(p);
        i = i + 1;
    }
    proof {
        let expected = plot_points_of(samples@, now as int);
        assert forall|k: int| 0 <= k < points@.len() implies points@[k] == expected[k] by {
            assert(expected[k] == plot_point_of(samples@[k], now as int));
        }
        assert(points@ =~= expected);
    }
    points
}

/// Computes the padded value-axis bounds: the combined minimum over both
/// readings of every sample less `VALUE_MARGIN`, and the combined maximum
/// plus `VALUE_MARGIN`. An empty sequence has no bounds.
pub fn axis_bounds(samples: &Vec<Sample>) -> (r: Option<AxisBounds>)
    requires
        forall|i: int| 0 <= i < samples@.len() ==> (#[trigger] samples@[i]).readings_bounded(),
    ensures
        (r is None) <==> samples@.len() == 0,
        r matches Some(b) ==> {
            &&& b.min_value == min_reading(samples@) - VALUE_MARGIN
            &&& b.max_value == max_reading(samples@) + VALUE_MARGIN
        },
{
    if samples.len() == 0 {
        return None;
    }
    let first = samples[0];
    let mut lo: i64 = min2(first.internal_reading, first.external_reading);
    let mut hi: i64 = max2(first.internal_reading, first.external_reading);
    let mut i: usize = 1;
    while i < samples.len()
        invariant
            1 <= i <= samples@.len(),
            forall|k: int| 0 <= k < samples@.len() ==> (#[trigger] samples@[k]).readings_bounded(),
            lo == min_reading(samples@.subrange(0, i as int)),
            hi == max_reading(samples@.subrange(0, i as int)),
            -READING_LIMIT <= lo <= READING_LIMIT,
            -READING_LIMIT <= hi <= READING_LIMIT,
        decreases samples@.len() - i,
    {
        proof {
            assert(samples@.subrange(0, i + 1 as int).drop_last() =~= samples@.subrange(
                0,
                i as int,
            ));
            assert(samples@.subrange(0, i + 1 as int).last() == samples@[i as int]);
        }
        let s = samples[i];
        let m = min2(s.internal_reading, s.external_reading);
        let x = max2(s.internal_reading, s.external_reading);
        lo = min2(lo, m);
        hi = max2(hi, x);
        i = i + 1;
    }
    proof {
        assert(samples@.subrange(0, samples@.len() as int) =~= samples@);
    }
    Some(AxisBounds { min_value: lo - VALUE_MARGIN, max_value: hi + VALUE_MARGIN })
}

/// The transformer's two outputs at once: the plot points, in delivery
/// order, and the padded bounds (absent when no sample came).
pub fn transform(samples: &Vec<Sample>, now: i64) -> (r: (Vec<PlotPoint>, Option<AxisBounds>))
    requires
        forall|i: int| 0 <= i < samples@.len() ==> (#[trigger] samples@[i]).taken_before(now),
        forall|i: int| 0 <= i < samples@.len() ==> (#[trigger] samples@[i]).readings_bounded(),
    ensures
        r.0@.len() == samples@.len(),
        forall|i: int| 0 <= i < samples@.len() ==> {
            &&& (#[trigger] r.0@[i]).hours_ago == hours_ago_of(
                now as int,
                samples@[i].timestamp as int,
            )
            &&& r.0@[i].internal_reading == samples@[i].internal_reading
            &&& r.0@[i].external_reading == samples@[i].external_reading
        },
        r.0@ == plot_points_of(samples@, now as int),
        (r.1 is None) <==> samples@.len() == 0,
        r.1 matches Some(b) ==> {
            &&& b.min_value == min_reading(samples@) - VALUE_MARGIN
            &&& b.max_value == max_reading(samples@) + VALUE_MARGIN
        },
{
    let points = to_plot_points(samples, now);
    let bounds = axis_bounds(samples);
    (points, bounds)
}

/// Every reading of every sample lies between the combined minimum and
/// maximum, and the minimum never exceeds the maximum.
pub proof fn lemma_min_max_bracket(samples: Seq<Sample>)
    requires
        samples.len() > 0,
    ensures
        forall|i: int| 0 <= i < samples.len() ==> {
            &&& min_reading(samples) <= (#[trigger] samples[i]).internal_reading
            &&& min_reading(samples) <= samples[i].external_reading
            &&& samples[i].internal_reading <= max_reading(samples)
            &&& samples[i].external_reading <= max_reading(samples)
        },
        min_reading(samples) <= max_reading(samples),
    decreases samples.len(),
{
    if samples.len() > 1 {
        lemma_min_max_bracket(samples.drop_last());
        assert(forall|i: int|
            0 <= i < samples.len() - 1 ==> samples.drop_last()[i] == #[trigger] samples[i]);
        assert(samples.last() == samples[samples.len() - 1]);
    }
}

/// With every reading's magnitude within `READING_LIMIT`, the combined
/// minimum and maximum stay within it too.
pub proof fn lemma_min_max_in_limits(samples: Seq<Sample>)
    requires
        samples.len() > 0,
        forall|i: int| 0 <= i < samples.len() ==> (#[trigger] samples[i]).readings_bounded(),
    ensures
        -READING_LIMIT <= min_reading(samples),
        max_reading(samples) <= READING_LIMIT,
    decreases samples.len(),
{
    if samples.len() > 1 {
        assert(forall|i: int|
            0 <= i < samples.len() - 1 ==> samples.drop_last()[i] == #[trigger] samples[i]);
        lemma_min_max_in_limits(samples.drop_last());
        assert(samples.last() == samples[samples.len() - 1]);
    }
}

/// The computed axis bounds bracket every reading with the fixed margin:
/// `min_value` sits at or below every reading less the margin, and
/// `max_value` at or above every reading plus the margin.
pub proof fn lemma_axis_bounds_bracket(samples: Seq<Sample>, b: AxisBounds)
    requires
        samples.len() > 0,
        b.min_value == min_reading(samples) - VALUE_MARGIN,
        b.max_value == max_reading(samples) + VALUE_MARGIN,
    ensures
        forall|i: int| 0 <= i < samples.len() ==> {
            &&& b.min_value <= (#[trigger] samples[i]).internal_reading - VALUE_MARGIN
            &&& b.min_value <= samples[i].external_reading - VALUE_MARGIN
            &&& samples[i].internal_reading + VALUE_MARGIN <= b.max_value
            &&& samples[i].external_reading + VALUE_MARGIN <= b.max_value
        },
        b.min_value < b.max_value,
{
    lemma_min_max_bracket(samples);
}

/// A sample taken exactly now is plotted at hour zero.
pub proof fn lemma_plot_point_at_now(s: Sample, now: int)
    requires
        s.timestamp == now,
    ensures
        hours_ago_of(now, s.timestamp as int) == 0,
{
}

/// A sample taken exactly `span` whole hours before now is plotted at
/// `-span`.
pub proof fn lemma_plot_point_at_full_hours(s: Sample, now: int, span: int)
    requires
        span >= 0,
        s.timestamp == now - span * (SECONDS_PER_HOUR as int),
    ensures
        hours_ago_of(now, s.timestamp as int) == -span,
{
    vstd::arithmetic::div_mod::lemma_div_multiples_vanish(span, SECONDS_PER_HOUR as int);
}

} // verus!
