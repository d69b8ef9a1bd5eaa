//! Scenario and edge-case tests for the render pipeline: transformation,
//! bounds, metadata extraction, rendering, and the full build.

use temperature_graph::axis_bounds;
use temperature_graph::build_graph;
use temperature_graph::latest_metadata;
use temperature_graph::render_chart;
use temperature_graph::to_plot_points;
use temperature_graph::AxisBounds;
use temperature_graph::GraphError;
use temperature_graph::Sample;

const NOW: i64 = 1_700_000_000;

const PNG_MAGIC: [u8; 8] = [137, 80, 78, 71, 13, 10, 26, 10];

fn sample(ts: i64, internal: i64, external: i64) -> Sample {
    Sample { timestamp: ts, internal_reading: internal, external_reading: external }
}

fn three_hour_samples() -> Vec<Sample> {
    // (t-2h, 20.0, 5.0), (t-1h, 21.0, 6.0), (t, 22.0, 7.0) in centi-units.
    vec![
        sample(NOW - 7200, 2000, 500),
        sample(NOW - 3600, 2100, 600),
        sample(NOW, 2200, 700),
    ]
}

#[test]
fn three_samples_make_expected_plot_points() {
    let points = to_plot_points(&three_hour_samples(), NOW);
    assert_eq!(points.len(), 3);
    let as_tuples: Vec<(i64, i64, i64)> = points
        .iter()
        .map(|p| (p.hours_ago, p.internal_reading, p.external_reading))
        .collect();
    assert_eq!(as_tuples, vec![(-2, 2000, 500), (-1, 2100, 600), (0, 2200, 700)]);
}

#[test]
fn three_samples_make_expected_bounds() {
    // min = 5.0 - 5 = 0.0, max = 22.0 + 5 = 27.0 in centi-units.
    let bounds = axis_bounds(&three_hour_samples()).unwrap();
    assert_eq!(bounds.min_value, 0);
    assert_eq!(bounds.max_value, 2700);
}

#[test]
fn three_samples_make_expected_metadata() {
    let meta = latest_metadata(&three_hour_samples()).unwrap();
    assert_eq!(meta.last_timestamp(), NOW);
    assert_eq!(meta.internal_temperature(), 2200);
    assert_eq!(meta.external_temperature(), 700);
}

#[test]
fn single_sample_at_now_bounds_use_both_readings() {
    // Readings (18.5, 4.0): min = 4.0 - 5 = -1.0, max = 18.5 + 5 = 23.5.
    let samples = vec![sample(NOW, 1850, 400)];
    let bounds = axis_bounds(&samples).unwrap();
    assert_eq!(bounds.min_value, -100);
    assert_eq!(bounds.max_value, 2350);
    let points = to_plot_points(&samples, NOW);
    assert_eq!(points[0].hours_ago, 0);
}

#[test]
fn hours_ago_truncates_toward_zero() {
    let samples = vec![
        sample(NOW - 3599, 0, 0), // 59 minutes 59 seconds ago: still hour 0
        sample(NOW - 5400, 0, 0), // 90 minutes ago: one whole hour
        sample(NOW - 7200, 0, 0), // exactly two hours ago
    ];
    let points = to_plot_points(&samples, NOW);
    assert_eq!(points[0].hours_ago, 0);
    assert_eq!(points[1].hours_ago, -1);
    assert_eq!(points[2].hours_ago, -2);
}

#[test]
fn series_follow_plot_point_order() {
    let points = to_plot_points(&three_hour_samples(), NOW);
    let internal = temperature_graph::internal_series(&points);
    let external = temperature_graph::external_series(&points);
    assert_eq!(internal, vec![(-2, 2000), (-1, 2100), (0, 2200)]);
    assert_eq!(external, vec![(-2, 500), (-1, 600), (0, 700)]);
}

#[test]
fn wide_window_renders_recent_samples() {
    // The default three-day window with data only from the last two hours.
    let samples = three_hour_samples();
    let (png, meta) = build_graph(&samples, NOW, 72, false).unwrap();
    assert_eq!(&png[..8], &PNG_MAGIC);
    assert_eq!(meta.last_timestamp(), NOW);
}

#[test]
fn metadata_ignores_delivery_order() {
    let mut shuffled = three_hour_samples();
    shuffled.swap(0, 2);
    let meta = latest_metadata(&shuffled).unwrap();
    assert_eq!(meta.last_timestamp(), NOW);
    assert_eq!(meta.internal_temperature(), 2200);
    assert_eq!(meta.external_temperature(), 700);
    shuffled.swap(1, 2);
    let meta = latest_metadata(&shuffled).unwrap();
    assert_eq!(meta.last_timestamp(), NOW);
}

#[test]
fn metadata_is_not_the_last_element() {
    // Delivery order is not chronological: the latest sample sits first.
    let samples = vec![
        sample(NOW, 2200, 700),
        sample(NOW - 7200, 2000, 500),
        sample(NOW - 3600, 2100, 600),
    ];
    let meta = latest_metadata(&samples).unwrap();
    assert_eq!(meta.last_timestamp(), NOW);
    assert_eq!(meta.internal_temperature(), 2200);
}

#[test]
fn empty_dataset_fails_metadata_extraction() {
    let samples: Vec<Sample> = Vec::new();
    assert_eq!(latest_metadata(&samples).unwrap_err(), GraphError::EmptyDatasetError);
}

#[test]
fn empty_dataset_has_no_bounds() {
    let samples: Vec<Sample> = Vec::new();
    assert!(axis_bounds(&samples).is_none());
}

#[test]
fn empty_dataset_fails_build() {
    let samples: Vec<Sample> = Vec::new();
    let err = build_graph(&samples, NOW, 2, false).unwrap_err();
    assert_eq!(err, GraphError::EmptyDatasetError);
}

#[test]
fn degenerate_bounds_fail_rendering() {
    let points = to_plot_points(&three_hour_samples(), NOW);
    let flat = AxisBounds { min_value: 500, max_value: 500 };
    assert_eq!(render_chart(&points, &flat, 2, false).unwrap_err(), GraphError::RenderError);
    let inverted = AxisBounds { min_value: 700, max_value: 300 };
    assert_eq!(render_chart(&points, &inverted, 2, false).unwrap_err(), GraphError::RenderError);
}

#[test]
fn zero_hour_span_fails_rendering() {
    let samples = three_hour_samples();
    let points = to_plot_points(&samples, NOW);
    let bounds = axis_bounds(&samples).unwrap();
    assert_eq!(render_chart(&points, &bounds, 0, false).unwrap_err(), GraphError::RenderError);
    // A zero-span window can hold only samples taken exactly now.
    let at_now = vec![sample(NOW, 2000, 500)];
    assert_eq!(build_graph(&at_now, NOW, 0, false).unwrap_err(), GraphError::RenderError);
}

#[test]
fn off_chart_points_fail_rendering() {
    let samples = three_hour_samples();
    let points = to_plot_points(&samples, NOW);
    let bounds = axis_bounds(&samples).unwrap();
    // A reading above the value axis cannot be drawn.
    let narrow = AxisBounds { min_value: 0, max_value: 100 };
    assert_eq!(render_chart(&points, &narrow, 2, false).unwrap_err(), GraphError::RenderError);
    // A point older than the time axis cannot be drawn either.
    assert_eq!(render_chart(&points, &bounds, 1, false).unwrap_err(), GraphError::RenderError);
    // Outsized axis ends are rejected before drawing.
    let outsized = AxisBounds { min_value: i64::MIN, max_value: i64::MAX };
    assert_eq!(render_chart(&points, &outsized, 2, false).unwrap_err(), GraphError::RenderError);
}

#[test]
fn rendering_produces_png_bytes() {
    let samples = three_hour_samples();
    let points = to_plot_points(&samples, NOW);
    let bounds = axis_bounds(&samples).unwrap();
    let (png, labels_drawn) = render_chart(&points, &bounds, 2, false).unwrap();
    assert!(png.len() > 8);
    assert_eq!(&png[..8], &PNG_MAGIC);
    assert!(!labels_drawn);
}

#[test]
fn rendering_draws_background_and_series() {
    let samples = three_hour_samples();
    let points = to_plot_points(&samples, NOW);
    let bounds = axis_bounds(&samples).unwrap();
    let (png, _) = render_chart(&points, &bounds, 2, false).unwrap();
    let img = image::load_from_memory(&png).unwrap().to_rgb8();
    assert_eq!(img.width(), 640);
    assert_eq!(img.height(), 480);
    // The margin corner carries the white background fill.
    assert_eq!(img.get_pixel(0, 0), &image::Rgb([255u8, 255, 255]));
    // The internal series is drawn in blue, the external one in red.
    assert!(img.pixels().any(|p| p.0 == [0, 0, 255]));
    assert!(img.pixels().any(|p| p.0 == [255, 0, 0]));
}

#[test]
fn labels_fall_back_gracefully_without_font() {
    // Tick labels need a registered font; none is registered here, so the
    // renderer must still draw the chart, just without labels.
    let samples = three_hour_samples();
    let points = to_plot_points(&samples, NOW);
    let bounds = axis_bounds(&samples).unwrap();
    let (png, labels_drawn) = render_chart(&points, &bounds, 2, true).unwrap();
    assert_eq!(&png[..8], &PNG_MAGIC);
    assert!(!labels_drawn);
    // The fallback raster equals the one an explicit label-free call gives.
    let (plain, _) = render_chart(&points, &bounds, 2, false).unwrap();
    assert_eq!(png, plain);
}

#[test]
fn build_graph_returns_png_and_latest_metadata() {
    let samples = three_hour_samples();
    let (png, meta) = build_graph(&samples, NOW, 2, false).unwrap();
    assert_eq!(&png[..8], &PNG_MAGIC);
    assert_eq!(meta.last_timestamp(), NOW);
    assert_eq!(meta.internal_temperature(), 2200);
    assert_eq!(meta.external_temperature(), 700);
}

#[test]
fn identical_readings_still_render() {
    // A flat dataset keeps min < max thanks to the fixed margin.
    let samples = vec![sample(NOW - 3600, 1000, 1000), sample(NOW, 1000, 1000)];
    let bounds = axis_bounds(&samples).unwrap();
    assert_eq!(bounds.min_value, 500);
    assert_eq!(bounds.max_value, 1500);
    let (png, _) = build_graph(&samples, NOW, 2, false).unwrap();
    assert_eq!(&png[..8], &PNG_MAGIC);
}

#[test]
fn negative_readings_are_handled() {
    let samples = vec![sample(NOW - 3600, -2050, -3000), sample(NOW, -1000, -2500)];
    let bounds = axis_bounds(&samples).unwrap();
    assert_eq!(bounds.min_value, -3500);
    assert_eq!(bounds.max_value, -500);
    let meta = latest_metadata(&samples).unwrap();
    assert_eq!(meta.internal_temperature(), -1000);
}
