//! The render pipeline after the fetch: transform the samples, draw the
//! chart, and extract the latest-sample metadata, with the one decision
//! point — empty versus non-empty dataset — taken explicitly up front.

use vstd::prelude::*;

use crate::metadata::is_latest_projection;
use crate::metadata::latest_metadata;
use crate::metadata::max_timestamp;
use crate::metadata::PointMetadata;
use crate::model::GraphError;
use crate::model::Sample;
use crate::model::SECONDS_PER_HOUR;
use crate::model::VALUE_MARGIN;
use crate::render::chart_frame_ok;
use crate::render::chart_pixels_of;
use crate::render::external_series_of;
use crate::render::internal_series_of;
use crate::render::png_of;
use crate::render::render_chart;
use crate::render::point_in_frame;
use crate::render::time_axis_min;
use crate::transform::hours_ago_of;
use crate::transform::lemma_min_max_bracket;
use crate::transform::lemma_min_max_in_limits;
use crate::transform::max_reading;
use crate::transform::min_reading;
use crate::transform::plot_points_of;
use crate::transform::transform;

verus! {

/// Builds the graph for the given samples as seen from `now`: one plot
/// point per sample, the value axis spanning the padded combined range of
/// both readings, the time axis spanning `[-hour_span, 0]`. Returns the
/// chart as PNG bytes together with the metadata of the chronologically
/// latest sample.
///
/// An empty sample sequence fails with `EmptyDatasetError` before any
/// rendering is attempted; a zero hour span fails with `RenderError`;
/// nothing else does. Rendering a non-empty window over a positive span
/// always succeeds: where labels are asked for but no font is available,
/// the chart is drawn without them rather than failing.
pub fn build_graph(samples: &Vec<Sample>, now: i64, hour_span: u32, with_labels: bool) -> (r:
    Result<(Vec<u8>, PointMetadata), GraphError>)
    requires
        forall|i: int| 0 <= i < samples@.len() ==> (#[trigger] samples@[i]).in_window(
            now,
            hour_span,
        ),
        forall|i: int| 0 <= i < samples@.len() ==> (#[trigger] samples@[i]).readings_bounded(),
    ensures
        (samples@.len() == 0) <==> (r matches Err(e) && e == GraphError::EmptyDatasetError),
        r matches Err(e) ==> e == GraphError::EmptyDatasetError || e == GraphError::RenderError,
        hour_span == 0 && samples@.len() > 0 ==> (r matches Err(e) && e
            == GraphError::RenderError),
        r matches Ok(out) ==> {
            &&& out.1.last_timestamp == max_timestamp(samples@)
            &&& is_latest_projection(samples@, out.1)
            &&& hour_span >= 1
        },
        samples@.len() > 0 && hour_span >= 1 ==> r is Ok,
        !with_labels && r is Ok ==> (r matches Ok(out) ==> out.0@ == png_of(
            chart_pixels_of(
                time_axis_min(hour_span),
                (min_reading(samples@) - VALUE_MARGIN) as i64,
                (max_reading(samples@) + VALUE_MARGIN) as i64,
                internal_series_of(plot_points_of(samples@, now as int)),
                external_series_of(plot_points_of(samples@, now as int)),
            ),
        )),
{
    if samples.len() == 0 {
        return Err(GraphError::EmptyDatasetError);
    }
    let meta = match latest_metadata(samples) {
        Ok(m) => m,
        Err(e) => { return Err(e) },
    };
    let (points, bounds_opt) = transform(samples, now);
    let bounds = match bounds_opt {
        Some(b) => b,
        None => { return Err(GraphError::RenderError) },
    };
    proof {
        lemma_min_max_bracket(samples@);
        lemma_min_max_in_limits(samples@);
        assert(bounds.min_value < bounds.max_value);
        if hour_span >= 1 {
            assert forall|i: int| 0 <= i < points@.len() implies point_in_frame(
                #[trigger] points@[i],
                bounds,
                hour_span,
            ) by {
                let s = samples@[i];
                let age = now - s.timestamp as int;
                assert(0 <= age <= hour_span * (SECONDS_PER_HOUR as int));
                vstd::arithmetic::div_mod::lemma_div_is_ordered(
                    age,
                    hour_span * (SECONDS_PER_HOUR as int),
                    SECONDS_PER_HOUR as int,
                );
                vstd::arithmetic::div_mod::lemma_div_multiples_vanish(
                    hour_span as int,
                    SECONDS_PER_HOUR as int,
                );
                vstd::arithmetic::div_mod::lemma_div_is_ordered(0, age, SECONDS_PER_HOUR as int);
                assert(points@[i].hours_ago == hours_ago_of(now as int, s.timestamp as int));
                assert(-(hour_span as int) <= points@[i].hours_ago <= 0);
            }
            assert(chart_frame_ok(points@, bounds, hour_span));
        }
    }
    match render_chart(&points, &bounds, hour_span, with_labels) {
        Ok((png, _labels_drawn)) => Ok((png, meta)),
        Err(e) => Err(e),
    }
}

} // verus!
