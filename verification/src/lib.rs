//! Renders a time-series line chart of two correlated sensor readings
//! (internal and external temperature) over a trailing window of hours,
//! and extracts metadata about the most recent sample.
//!
//! Readings are held as fixed-point integers in hundredths of a unit
//! (centi-units), timestamps as seconds since the Unix epoch.

use vstd::prelude::*;

mod config;
mod connection;
mod graph;
mod metadata;
mod model;
mod render;
mod transform;

pub use config::get_config;
pub use config::LambdaOpt;
pub use config::Opt;
pub use config::DEFAULT_HOUR_SPAN;
pub use config::DEFAULT_PORT;
pub use connection::decimal_digits;
pub use connection::digit_char;
pub use connection::DatabaseConnection;
pub use graph::build_graph;

pub use render::chart_frame_ok;
pub use render::chart_pixels_of;
pub use render::external_series;
pub use render::external_series_of;
pub use render::internal_series;
pub use render::internal_series_of;
pub use render::png_of;
pub use render::point_in_frame;
pub use render::render_chart;
pub use render::time_axis_min;
pub use render::CHART_HEIGHT;
pub use render::CHART_WIDTH;
pub use render::AXIS_LIMIT;
pub use render::PIXEL_BYTES;

pub use metadata::is_latest_projection;
pub use metadata::latest_metadata;
pub use metadata::lemma_latest_timestamp_permutation;
pub use metadata::max_timestamp;
pub use metadata::timestamps;
pub use metadata::PointMetadata;

pub use model::AxisBounds;
pub use model::GraphError;
pub use model::PlotPoint;
pub use model::Sample;
pub use model::READING_LIMIT;
pub use model::SECONDS_PER_HOUR;
pub use model::VALUE_MARGIN;
pub use transform::axis_bounds;
pub use transform::hours_ago_of;
pub use transform::lemma_axis_bounds_bracket;
pub use transform::lemma_min_max_bracket;
pub use transform::lemma_min_max_in_limits;
pub use transform::lemma_plot_point_at_full_hours;
pub use transform::lemma_plot_point_at_now;
pub use transform::max_reading;
pub use transform::min_reading;
pub use transform::plot_point_of;
pub use transform::plot_points_of;
pub use transform::sample_max;
pub use transform::sample_min;
pub use transform::to_plot_point;
pub use transform::to_plot_points;
pub use transform::transform;

verus! {

} // verus!
