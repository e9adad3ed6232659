//! Power metrics with integral values.
use crate::model::types::{Measurement, PowerStatusBreakdownMetricCategory};
use vstd::prelude::*;

verus! {

/// A real-time power summary metric (total generation, total consumption, net flow).
#[derive(Debug, Clone, PartialEq)]
pub struct PowerStatusMetric {
    /// The measurement type (Measurement::Power)
    pub measurement: Measurement,
    /// Descriptive name of the metric, e.g. "総発電電力(W)"
    pub name: String,
    /// The power value in watts (W)
    pub value: i64,
}

/// A per-component power metric: one generation source or one consuming device.
#[derive(Debug, Clone, PartialEq)]
pub struct PowerStatusBreakdownMetric {
    /// The measurement type (Measurement::Power)
    pub measurement: Measurement,
    /// Whether this is generation or consumption
    pub category: PowerStatusBreakdownMetricCategory,
    /// Name of the component, e.g. "太陽光(W)"
    pub name: String,
    /// The power value in watts (W)
    pub value: i64,
}

} // verus!
