//! Metric types collected from AiSEG2 and the rules that combine them.
pub mod merge;
pub mod metrics;
pub mod points;
pub mod types;

pub use merge::merge_same_name_power_status_breakdown_metrics;
pub use metrics::{PowerStatusBreakdownMetric, PowerStatusMetric};
pub use types::{ClimateStatusMetricCategory, Measurement, PowerStatusBreakdownMetricCategory, Unit};
