//! The data model: samples as fetched from the store, plot-ready points,
//! value-axis bounds, and the pipeline's error taxonomy.

use vstd::prelude::*;

verus! {

/// The largest reading magnitude the pipeline accepts, in centi-units
/// (ten million whole units): the padded value axis then spans at most a
/// few billion, far inside the integer ranges that the drawing backend's
/// coordinate arithmetic handles without overflow.
pub const READING_LIMIT: i64 = 1_000_000_000;

/// The fixed margin added below the minimum and above the maximum reading
/// when computing the value axis, in centi-units (5 whole units).
pub const VALUE_MARGIN: i64 = 500;

/// Seconds in one hour.
pub const SECONDS_PER_HOUR: u64 = 3600;

/// One row from the store: a timestamp (seconds since the Unix epoch) and
/// the two readings taken at that instant, in centi-units.
#[derive(Clone, Copy, Debug, PartialEq, Eq, Structural)]
pub struct Sample {
    pub timestamp: i64,
    pub internal_reading: i64,
    pub external_reading: i64,
}

impl Sample {
    /// Both readings sit far enough from the `i64` range ends that the
    /// axis margin can be applied without overflow.
    pub open spec fn readings_bounded(self) -> bool {
        -READING_LIMIT <= self.internal_reading <= READING_LIMIT
            && -READING_LIMIT <= self.external_reading <= READING_LIMIT
    }

    /// The sample was taken no later than `now`, and recently enough that
    /// the age in seconds fits in an `i64`.
    pub open spec fn taken_before(self, now: i64) -> bool {
        self.timestamp <= now && now - self.timestamp <= i64::MAX
    }

    /// The sample falls inside the trailing window: taken no later than
    /// `now` and no more than `hour_span` hours before it.
    pub open spec fn in_window(self, now: i64, hour_span: u32) -> bool {
        self.timestamp <= now && now - self.timestamp <= hour_span * (SECONDS_PER_HOUR as int)
    }
}

/// A sample made plot-ready: its age in whole hours, sign-flipped so that
/// zero is now and more negative is further in the past, with the two
/// readings carried over unchanged.
#[derive(Clone, Copy, Debug, PartialEq, Eq, Structural)]
pub struct PlotPoint {
    pub hours_ago: i64,
    pub internal_reading: i64,
    pub external_reading: i64,
}

/// The value-axis range for the chart: the combined minimum and maximum
/// over both readings of every sample, each padded by `VALUE_MARGIN`.
#[derive(Clone, Copy, Debug, PartialEq, Eq, Structural)]
pub struct AxisBounds {
    pub min_value: i64,
    pub max_value: i64,
}

/// Everything that can go wrong in one render invocation, by stage.
#[derive(Clone, Copy, Debug, PartialEq, Eq, Structural)]
pub enum GraphError {
    /// The store was unreachable or rejected the credentials.
    ConnectionError,
    /// The store rejected the query.
    QueryError,
    /// The window held no samples; recoverable by skipping the cycle.
    EmptyDatasetError,
    /// The surface could not be created or the series not drawn.
    RenderError,
}

} // verus!
