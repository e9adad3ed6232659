//! Measurement kinds, units and categories, with the labels they carry in InfluxDB.
use vstd::prelude::*;

verus! {

/// The InfluxDB measurement (table) a metric is written to.
#[derive(Debug, Clone, Copy, PartialEq, Eq, Hash, Structural)]
pub enum Measurement {
    /// Real-time power metrics (generation, consumption, etc.)
    Power,
    /// Daily aggregated totals for various metrics
    DailyTotal,
    /// Daily totals for specific electrical circuits
    CircuitDailyTotal,
    /// Environmental metrics (temperature, humidity)
    Climate,
}

/// The label of a measurement.
pub open spec fn measurement_label(m: Measurement) -> Seq<char> {
    match m {
        Measurement::Power => "power"@,
        Measurement::DailyTotal => "daily_total"@,
        Measurement::CircuitDailyTotal => "circuit_daily_total"@,
        Measurement::Climate => "climate"@,
    }
}

impl Measurement {
    /// The label under which the measurement is written.
    pub fn to_string(&self) -> (r: String)
        ensures
            r@ == measurement_label(*self),
    {
        match self {
            Measurement::Power => String::from_str("power"),
            Measurement::DailyTotal => String::from_str("daily_total"),
            Measurement::CircuitDailyTotal => String::from_str("circuit_daily_total"),
            Measurement::Climate => String::from_str("climate"),
        }
    }
}

/// Units of measurement, appended to metric names.
#[derive(Debug, Clone, Copy, PartialEq, Eq, Structural)]
pub enum Unit {
    /// Watts (W), for instantaneous power
    Watt,
    /// Kilowatt-hours (kWh), for energy over time
    Kwh,
    /// Liters (L), for water volume
    Liter,
    /// Cubic meters, for gas volume
    CubicMeter,
}

/// The symbol of a unit.
pub open spec fn unit_label(u: Unit) -> Seq<char> {
    match u {
        Unit::Watt => "W"@,
        Unit::Kwh => "kWh"@,
        Unit::Liter => "L"@,
        Unit::CubicMeter => "㎥"@,
    }
}

impl Unit {
    /// The symbol of the unit.
    pub fn to_string(&self) -> (r: String)
        ensures
            r@ == unit_label(*self),
    {
        match self {
            Unit::Watt => String::from_str("W"),
            Unit::Kwh => String::from_str("kWh"),
            Unit::Liter => String::from_str("L"),
            Unit::CubicMeter => String::from_str("㎥"),
        }
    }
}

/// Whether a power breakdown entry is a source of generation or a point of consumption.
#[derive(Debug, Clone, Copy, PartialEq, Eq, Hash, Structural)]
pub enum PowerStatusBreakdownMetricCategory {
    /// Power generation sources (solar, fuel cell, etc.)
    Generation,
    /// Power consumption endpoints (appliances, circuits, etc.)
    Consumption,
}

/// The label of a power breakdown category.
pub open spec fn breakdown_category_label(c: PowerStatusBreakdownMetricCategory) -> Seq<char> {
    match c {
        PowerStatusBreakdownMetricCategory::Generation => "generation"@,
        PowerStatusBreakdownMetricCategory::Consumption => "consumption"@,
    }
}

impl PowerStatusBreakdownMetricCategory {
    /// The label of the category.
    pub fn to_string(&self) -> (r: String)
        ensures
            r@ == breakdown_category_label(*self),
    {
        match self {
            PowerStatusBreakdownMetricCategory::Generation => String::from_str("generation"),
            PowerStatusBreakdownMetricCategory::Consumption => String::from_str("consumption"),
        }
    }
}

/// Whether a climate reading is a temperature or a humidity.
#[derive(Debug, Clone, Copy, PartialEq, Eq, Hash, Structural)]
pub enum ClimateStatusMetricCategory {
    /// Temperature in degrees Celsius
    Temperature,
    /// Relative humidity percentage
    Humidity,
}

/// The label of a climate category.
pub open spec fn climate_category_label(c: ClimateStatusMetricCategory) -> Seq<char> {
    match c {
        ClimateStatusMetricCategory::Temperature => "temperature"@,
        ClimateStatusMetricCategory::Humidity => "humidity"@,
    }
}

impl ClimateStatusMetricCategory {
    /// The label of the category.
    pub fn to_string(&self) -> (r: String)
        ensures
            r@ == climate_category_label(*self),
    {
        match self {
            ClimateStatusMetricCategory::Temperature => String::from_str("temperature"),
            ClimateStatusMetricCategory::Humidity => String::from_str("humidity"),
        }
    }
}

/// A metric name followed by its unit in parentheses, as in `name(unit)`.
pub open spec fn labeled_name(name: Seq<char>, unit: Unit) -> Seq<char> {
    name + "("@ + unit_label(unit) + ")"@
}

/// Appends the unit to a metric name: `name(unit)`.
pub fn with_unit(name: &str, unit: Unit) -> (r: String)
    ensures
        r@ == labeled_name(name@, unit),
{
    let mut r = String::from_str(name);
    r.append("(");
    let u = unit.to_string();
    r.append(u.as_str());
    r.append(")");
    r
}

} // verus!
