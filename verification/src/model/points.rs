//! What a metric becomes in InfluxDB: its measurement and its tags. The value, and the time where
//! there is one, go with them as the point's `value` field and timestamp.
use crate::model::metrics::{PowerStatusBreakdownMetric, PowerStatusMetric};
use crate::model::types::{
    breakdown_category_label, climate_category_label, measurement_label, ClimateStatusMetricCategory, Measurement,
};
use vstd::prelude::*;

verus! {

/// The measurement and the tags of a data point.
#[derive(Debug, Clone, PartialEq, Eq)]
pub struct PointParts {
    /// The measurement (table) the point goes to
    pub measurement: String,
    /// The tags, as (name, value)
    pub tags: Vec<(String, String)>,
}

/// The tags taken by their characters.
pub open spec fn tag_views(tags: Seq<(String, String)>) -> Seq<(Seq<char>, Seq<char>)> {
    tags.map_values(|t: (String, String)| (t.0@, t.1@))
}

/// A tag of two strings.
fn tag(name: &str, value: String) -> (r: (String, String))
    ensures
        r.0@ == name@,
        r.1@ == value@,
{
    (String::from_str(name), value)
}

impl PowerStatusMetric {
    /// The point of a summary metric: its measurement, tagged `summary` with its name.
    pub fn point_parts(&self) -> (r: PointParts)
        ensures
            r.measurement@ == measurement_label(self.measurement),
            tag_views(r.tags@) == seq![("summary"@, self.name@)],
    {
        let mut tags: Vec<(String, String)> = Vec::new();
        tags.push(tag("summary", self.name.clone()));
        proof {
            assert(tag_views(tags@) =~= seq![("summary"@, self.name@)]);
        }
        PointParts { measurement: self.measurement.to_string(), tags }
    }
}

impl PowerStatusBreakdownMetric {
    /// The point of a breakdown metric: its measurement, tagged `detail-type` with its category
    /// and `detail-section` with its name.
    pub fn point_parts(&self) -> (r: PointParts)
        ensures
            r.measurement@ == measurement_label(self.measurement),
            tag_views(r.tags@) == seq![
                ("detail-type"@, breakdown_category_label(self.category)),
                ("detail-section"@, self.name@),
            ],
    {
        let mut tags: Vec<(String, String)> = Vec::new();
        tags.push(tag("detail-type", self.category.to_string()));
        tags.push(tag("detail-section", self.name.clone()));
        proof {
            assert(tag_views(tags@) =~= seq![
                ("detail-type"@, breakdown_category_label(self.category)),
                ("detail-section"@, self.name@),
            ]);
        }
        PointParts { measurement: self.measurement.to_string(), tags }
    }
}

/// The point of a daily total named `name`: its measurement, tagged `detail-section` with the
/// name.
pub fn total_point_parts(measurement: Measurement, name: &str) -> (r: PointParts)
    ensures
        r.measurement@ == measurement_label(measurement),
        tag_views(r.tags@) == seq![("detail-section"@, name@)],
{
    let mut tags: Vec<(String, String)> = Vec::new();
    tags.push(tag("detail-section", String::from_str(name)));
    proof {
        assert(tag_views(tags@) =~= seq![("detail-section"@, name@)]);
    }
    PointParts { measurement: measurement.to_string(), tags }
}

/// The point of a climate reading of place `name`: its measurement, tagged `detail-type` with its
/// category and `detail-section` with the place.
pub fn climate_point_parts(measurement: Measurement, category: ClimateStatusMetricCategory, name: &str) -> (r: PointParts)
    ensures
        r.measurement@ == measurement_label(measurement),
        tag_views(r.tags@) == seq![("detail-type"@, climate_category_label(category)), ("detail-section"@, name@)],
{
    let mut tags: Vec<(String, String)> = Vec::new();
    tags.push(tag("detail-type", category.to_string()));
    tags.push(tag("detail-section", String::from_str(name)));
    proof {
        assert(tag_views(tags@) =~= seq![
            ("detail-type"@, climate_category_label(category)),
            ("detail-section"@, name@),
        ]);
    }
    PointParts { measurement: measurement.to_string(), tags }
}

} // verus!
