//! The chart renderer: validates the axis bounds, lays the two series out
//! in plot-point order, and draws a fixed-size two-series line chart onto
//! an in-memory raster, returned as PNG bytes.
//!
//! Drawing and PNG encoding are done by the plotters and image crates
//! behind trusted wrappers; everything around those calls is verified.

use vstd::prelude::*;

use plotters::chart::ChartBuilder;
use plotters::drawing::IntoDrawingArea;
use plotters::prelude::BitMapBackend;
use plotters::series::LineSeries;
use plotters::style::BLUE;
use plotters::style::RED;
use plotters::style::WHITE;

use crate::model::AxisBounds;
use crate::model::GraphError;
use crate::model::PlotPoint;

verus! {

/// The fixed raster width, in pixels.
pub const CHART_WIDTH: u32 = 640;

/// The fixed raster height, in pixels.
pub const CHART_HEIGHT: u32 = 480;

/// Bytes in the raw RGB raster: one byte per channel per pixel.
pub const PIXEL_BYTES: usize = 640 * 480 * 3;

/// The largest magnitude the ends of the value axis may have: spans and
/// pixel mappings then stay far inside the integer ranges the drawing
/// backend computes in, so no admitted input can overflow there.
pub const AXIS_LIMIT: i64 = 2_000_000_000;

/// The internal-reading series: one `(hours_ago, internal_reading)` pair
/// per plot point, in plot-point order.
pub open spec fn internal_series_of(points: Seq<PlotPoint>) -> Seq<(i64, i64)> {
    points.map_values(|p: PlotPoint| (p.hours_ago, p.internal_reading))
}

/// The external-reading series: one `(hours_ago, external_reading)` pair
/// per plot point, in plot-point order.
pub open spec fn external_series_of(points: Seq<PlotPoint>) -> Seq<(i64, i64)> {
    points.map_values(|p: PlotPoint| (p.hours_ago, p.external_reading))
}

/// The left end of the time axis: the hour span, sign-flipped.
pub open spec fn time_axis_min(hour_span: u32) -> i64 {
    (-(hour_span as int)) as i64
}

/// The point lies on the chart: its age within the time axis and both its
/// readings within the value axis.
pub open spec fn point_in_frame(p: PlotPoint, bounds: AxisBounds, hour_span: u32) -> bool {
    &&& time_axis_min(hour_span) <= p.hours_ago <= 0
    &&& bounds.min_value <= p.internal_reading <= bounds.max_value
    &&& bounds.min_value <= p.external_reading <= bounds.max_value
}

/// The chart is drawable: a non-empty time axis, well-formed value-axis
/// ends of moderate magnitude, and every point on the chart. Exactly on
/// these inputs the renderer succeeds, whether or not labels are asked
/// for.
pub open spec fn chart_frame_ok(points: Seq<PlotPoint>, bounds: AxisBounds, hour_span: u32) -> bool {
    &&& hour_span >= 1
    &&& -AXIS_LIMIT <= bounds.min_value
    &&& bounds.min_value < bounds.max_value
    &&& bounds.max_value <= AXIS_LIMIT
    &&& forall|i: int| 0 <= i < points.len() ==> point_in_frame(#[trigger] points[i], bounds, hour_span)
}

/// The raw RGB raster that drawing the two series over the given ranges
/// produces, without text labels: a fixed function of the series and
/// ranges alone.
pub uninterp spec fn chart_pixels_of(
    x_min: i64,
    v_min: i64,
    v_max: i64,
    internal: Seq<(i64, i64)>,
    external: Seq<(i64, i64)>,
) -> Seq<u8>;

/// The PNG encoding of a raw 640x480 RGB raster: a fixed function of the
/// pixel bytes alone.
pub uninterp spec fn png_of(pixels: Seq<u8>) -> Seq<u8>;

pub fn internal_series(points: &Vec<PlotPoint>) -> (s: Vec<(i64, i64)>)
    ensures
        s@ == internal_series_of(points@),
{
    let mut s: Vec<(i64, i64)> = Vec::new();
    let mut i: usize = 0;
    while i < points.len()
        invariant
            0 <= i <= points@.len(),
            s@ == internal_series_of(points@.subrange(0, i as int)),
        decreases points@.len() - i,
    {
        let p = points[i];
        s.push((p.hours_ago, p.internal_reading));
        proof {
            assert(points@.subrange(0, i + 1 as int) =~= points@.subrange(0, i as int).push(
                points@[i as int],
            ));
            assert(internal_series_of(points@.subrange(0, i + 1 as int)) =~= internal_series_of(
                points@.subrange(0, i as int),
            ).push((points@[i as int].hours_ago, points@[i as int].internal_reading)));
        }
        i = i + 1;
    }
    proof {
        assert(points@.subrange(0, points@.len() as int) =~= points@);
    }
    s
}

pub fn external_series(points: &Vec<PlotPoint>) -> (s: Vec<(i64, i64)>)
    ensures
        s@ == external_series_of(points@),
{
    let mut s: Vec<(i64, i64)> = Vec::new();
    let mut i: usize = 0;
    while i < points.len()
        invariant
            0 <= i <= points@.len(),
            s@ == external_series_of(points@.subrange(0, i as int)),
        decreases points@.len() - i,
    {
        let p = points[i];
        s.push((p.hours_ago, p.external_reading));
        proof {
            assert(points@.subrange(0, i + 1 as int) =~= points@.subrange(0, i as int).push(
                points@[i as int],
            ));
            assert(external_series_of(points@.subrange(0, i + 1 as int)) =~= external_series_of(
                points@.subrange(0, i as int),
            ).push((points@[i as int].hours_ago, points@[i as int].external_reading)));
        }
        i = i + 1;
    }
    proof {
        assert(points@.subrange(0, points@.len() as int) =~= points@);
    }
    s
}

fn zero_buffer(n: usize) -> (v: Vec<u8>)
    ensures
        v@.len() == n,
{
    let mut v: Vec<u8> = Vec::new();
    let mut i: usize = 0;
    while i < n
        invariant
            v@.len() == i <= n,
        decreases n - i,
    {
        v.push(0u8);
        i = i + 1;
    }
    v
}

/// Relies on plotters' BitMapBackend, ChartBuilder, and LineSeries: fills
/// `buf` with a white-backed 640x480 RGB rendering of the mesh and the two
/// series over the ranges `x_min..0` and `v_min..v_max`, with no label
/// areas and hence no text, a deterministic function of its arguments.
/// The magnitude bounds keep every range span and pixel mapping inside the
/// backend's integer arithmetic; within them the in-memory bitmap pipeline
/// has no failing step, so the drawing always succeeds.
#[verifier::external_body]
fn draw_chart_plain(
    buf: &mut Vec<u8>,
    x_min: i64,
    v_min: i64,
    v_max: i64,
    internal: &Vec<(i64, i64)>,
    external: &Vec<(i64, i64)>,
) -> (ok: bool)
    requires
        old(buf)@.len() == PIXEL_BYTES,
        -0xffff_ffff <= x_min < 0,
        -AXIS_LIMIT <= v_min < v_max <= AXIS_LIMIT,
        forall|i: int| 0 <= i < internal@.len() ==> {
            &&& x_min <= (#[trigger] internal@[i]).0 <= 0
            &&& v_min <= internal@[i].1 <= v_max
        },
        forall|i: int| 0 <= i < external@.len() ==> {
            &&& x_min <= (#[trigger] external@[i]).0 <= 0
            &&& v_min <= external@[i].1 <= v_max
        },
    ensures
        ok,
        final(buf)@.len() == old(buf)@.len(),
        final(buf)@ == chart_pixels_of(x_min, v_min, v_max, internal@, external@),
{
    let r = (|| -> Result<(), Box<dyn std::error::Error>> {
        let area = BitMapBackend::with_buffer(buf.as_mut_slice(), (640, 480)).into_drawing_area();
        area.fill(&WHITE)?;
        let mut chart = ChartBuilder::on(&area).margin(16).build_cartesian_2d(
            x_min..0i64,
            v_min..v_max,
        )?;
        chart.configure_mesh().draw()?;
        chart.draw_series(LineSeries::new(internal.clone(), &BLUE))?;
        chart.draw_series(LineSeries::new(external.clone(), &RED))?;
        area.present()?;
        Ok(())
    })();
    r.is_ok()
}

/// Relies on plotters' BitMapBackend, ChartBuilder, and LineSeries, as the
/// plain variant does, but reserves 30-pixel label areas and draws tick
/// labels, which needs a font in the execution environment; returns
/// whether every drawing step succeeded (false where no font is
/// available). The magnitude bounds rule out overflow as in the plain
/// variant; success still depends on the environment's fonts, so only the
/// buffer length is promised.
#[verifier::external_body]
fn draw_chart_labeled(
    buf: &mut Vec<u8>,
    x_min: i64,
    v_min: i64,
    v_max: i64,
    internal: &Vec<(i64, i64)>,
    external: &Vec<(i64, i64)>,
) -> (ok: bool)
    requires
        old(buf)@.len() == PIXEL_BYTES,
        -0xffff_ffff <= x_min < 0,
        -AXIS_LIMIT <= v_min < v_max <= AXIS_LIMIT,
        forall|i: int| 0 <= i < internal@.len() ==> {
            &&& x_min <= (#[trigger] internal@[i]).0 <= 0
            &&& v_min <= internal@[i].1 <= v_max
        },
        forall|i: int| 0 <= i < external@.len() ==> {
            &&& x_min <= (#[trigger] external@[i]).0 <= 0
            &&& v_min <= external@[i].1 <= v_max
        },
    ensures
        final(buf)@.len() == old(buf)@.len(),
{
    let r = (|| -> Result<(), Box<dyn std::error::Error>> {
        let area = BitMapBackend::with_buffer(buf.as_mut_slice(), (640, 480)).into_drawing_area();
        area.fill(&WHITE)?;
        let mut chart = ChartBuilder::on(&area)
            .margin(16)
            .x_label_area_size(30)
            .y_label_area_size(30)
            .build_cartesian_2d(x_min..0i64, v_min..v_max)?;
        chart.configure_mesh().draw()?;
        chart.draw_series(LineSeries::new(internal.clone(), &BLUE))?;
        chart.draw_series(LineSeries::new(external.clone(), &RED))?;
        area.present()?;
        Ok(())
    })();
    r.is_ok()
}

/// Relies on image's PngEncoder::write_image: encodes a 640x480 RGB
/// raster as PNG bytes, a deterministic function of the pixels alone.
/// With the exact-size buffer the `requires` demands, the encoder's only
/// failure path (a buffer-length check) is excluded, and writing into a
/// vector cannot fail, so the encoding always succeeds.
#[verifier::external_body]
fn encode_png(pixels: &Vec<u8>) -> (r: Option<Vec<u8>>)
    requires
        pixels@.len() == PIXEL_BYTES,
    ensures
        r is Some,
        r matches Some(p) ==> p@ == png_of(pixels@),
{
    let mut out: Vec<u8> = Vec::new();
    let encoder = image::codecs::png::PngEncoder::new(&mut out);
    match image::ImageEncoder::write_image(
        encoder,
        pixels.as_slice(),
        640,
        480,
        image::ColorType::Rgb8,
    ) {
        Ok(()) => Some(out),
        Err(_) => None,
    }
}

fn points_fit_frame(points: &Vec<PlotPoint>, bounds: &AxisBounds, hour_span: u32) -> (ok: bool)
    requires
        hour_span >= 1,
    ensures
        ok == forall|i: int|
            0 <= i < points@.len() ==> point_in_frame(#[trigger] points@[i], *bounds, hour_span),
{
    let x_min: i64 = -(hour_span as i64);
    let mut i: usize = 0;
    while i < points.len()
        invariant
            0 <= i <= points@.len(),
            hour_span >= 1,
            x_min == time_axis_min(hour_span),
            forall|k: int| 0 <= k < i ==> point_in_frame(#[trigger] points@[k], *bounds, hour_span),
        decreases points@.len() - i,
    {
        let p = &points[i];
        let fits = x_min <= p.hours_ago && p.hours_ago <= 0 && bounds.min_value
            <= p.internal_reading && p.internal_reading <= bounds.max_value && bounds.min_value
            <= p.external_reading && p.external_reading <= bounds.max_value;
        if !fits {
            proof {
                assert(!point_in_frame(points@[i as int], *bounds, hour_span));
            }
            return false;
        }
        i = i + 1;
    }
    true
}

/// Draws the two series over the time axis `[-hour_span, 0]` and the value
/// axis `[min_value, max_value]` onto a fixed 640x480 raster and returns
/// it as PNG bytes, beside a flag saying whether tick labels were drawn.
/// Label areas need a font in the execution environment: when
/// `with_labels` is set but the labeled drawing fails, the chart is
/// rendered again without labels rather than failing. An empty time axis,
/// malformed or outsized bounds, and a point off the chart yield
/// `RenderError`; the renderer succeeds on exactly the drawable inputs
/// (`chart_frame_ok`), and whenever no labels were drawn the bytes are
/// pinned to the named label-free raster.
pub fn render_chart(
    points: &Vec<PlotPoint>,
    bounds: &AxisBounds,
    hour_span: u32,
    with_labels: bool,
) -> (r: Result<(Vec<u8>, bool), GraphError>)
    ensures
        bounds.min_value >= bounds.max_value ==> r is Err,
        hour_span == 0 ==> r is Err,
        r matches Err(e) ==> e == GraphError::RenderError,
        (r is Ok) <==> chart_frame_ok(points@, *bounds, hour_span),
        r matches Ok(out) ==> !out.1 ==> out.0@ == png_of(
            chart_pixels_of(
                time_axis_min(hour_span),
                bounds.min_value,
                bounds.max_value,
                internal_series_of(points@),
                external_series_of(points@),
            ),
        ),
        !with_labels && r is Ok ==> (r matches Ok(out) ==> out.1 == false),
{
    if bounds.min_value >= bounds.max_value {
        return Err(GraphError::RenderError);
    }
    if hour_span == 0 {
        return Err(GraphError::RenderError);
    }
    if bounds.min_value < -AXIS_LIMIT || bounds.max_value > AXIS_LIMIT {
        return Err(GraphError::RenderError);
    }
    if !points_fit_frame(points, bounds, hour_span) {
        return Err(GraphError::RenderError);
    }
    let x_min: i64 = -(hour_span as i64);
    let internal = internal_series(points);
    let external = external_series(points);
    let mut buf = zero_buffer(PIXEL_BYTES);
    let mut labels_drawn = false;
    if with_labels {
        labels_drawn = draw_chart_labeled(
            &mut buf,
            x_min,
            bounds.min_value,
            bounds.max_value,
            &internal,
            &external,
        );
    }
    if !labels_drawn {
        // No labels wanted, or no font available: render without them.
        let ok = draw_chart_plain(
            &mut buf,
            x_min,
            bounds.min_value,
            bounds.max_value,
            &internal,
            &external,
        );
        if !ok {
            return Err(GraphError::RenderError);
        }
    }
    match encode_png(&buf) {
        Some(png) => Ok((png, labels_drawn)),
        None => Err(GraphError::RenderError),
    }
}

} // verus!
