//! Building power and climate metrics from what the pages give.
use crate::aiseg::pagination::PageItem;
use crate::model::metrics::{PowerStatusBreakdownMetric, PowerStatusMetric};
use crate::model::types::{
    climate_category_label, labeled_name, with_unit, ClimateStatusMetricCategory, Measurement,
    PowerStatusBreakdownMetricCategory, Unit,
};
use vstd::prelude::*;

verus! {

/// The name of the total generation metric.
pub open spec fn total_generation_name() -> Seq<char> {
    labeled_name("総発電電力"@, Unit::Watt)
}

/// The name of the total consumption metric.
pub open spec fn total_consumption_name() -> Seq<char> {
    labeled_name("総消費電力"@, Unit::Watt)
}

/// The name of the net flow metric (generation minus consumption).
pub open spec fn net_flow_name() -> Seq<char> {
    labeled_name("売買電力"@, Unit::Watt)
}

/// The total power metrics: generation, consumption, and generation minus consumption, in watts.
pub fn create_total_power_metrics(generation_w: i64, consumption_w: i64) -> (r: Vec<PowerStatusMetric>)
    requires
        i64::MIN <= generation_w - consumption_w <= i64::MAX,
    ensures
        r@.len() == 3,
        r@[0].measurement == Measurement::Power && r@[0].name@ == total_generation_name() && r@[0].value
            == generation_w,
        r@[1].measurement == Measurement::Power && r@[1].name@ == total_consumption_name() && r@[1].value
            == consumption_w,
        r@[2].measurement == Measurement::Power && r@[2].name@ == net_flow_name() && r@[2].value
            == generation_w - consumption_w,
{
    let mut r: Vec<PowerStatusMetric> = Vec::new();
    r.push(PowerStatusMetric { measurement: Measurement::Power, name: with_unit("総発電電力", Unit::Watt), value: generation_w });
    r.push(PowerStatusMetric { measurement: Measurement::Power, name: with_unit("総消費電力", Unit::Watt), value: consumption_w });
    r.push(
        PowerStatusMetric {
            measurement: Measurement::Power,
            name: with_unit("売買電力", Unit::Watt),
            value: generation_w - consumption_w,
        },
    );
    r
}

/// Whether `r` holds one power breakdown metric of `category` per entry of `entries`, in order,
/// named `name(W)` with the entry's value.
pub open spec fn is_breakdown_of(
    entries: Seq<(String, i64)>,
    category: PowerStatusBreakdownMetricCategory,
    r: Seq<PowerStatusBreakdownMetric>,
) -> bool {
    &&& r.len() == entries.len()
    &&& forall|i: int|
        0 <= i < r.len() ==> {
            &&& (#[trigger] r[i]).measurement == Measurement::Power
            &&& r[i].category == category
            &&& r[i].name@ == labeled_name(entries[i].0@, Unit::Watt)
            &&& r[i].value == entries[i].1
        }
}

/// One power breakdown metric of `category` per entry, in order.
fn breakdown_metrics(entries: Vec<(String, i64)>, category: PowerStatusBreakdownMetricCategory) -> (r: Vec<
    PowerStatusBreakdownMetric,
>)
    ensures
        is_breakdown_of(entries@, category, r@),
{
    let mut r: Vec<PowerStatusBreakdownMetric> = Vec::new();
    let mut i: usize = 0;
    while i < entries.len()
        invariant
            i <= entries@.len(),
            r@.len() == i,
            forall|k: int|
                0 <= k < i ==> {
                    &&& (#[trigger] r@[k]).measurement == Measurement::Power
                    &&& r@[k].category == category
                    &&& r@[k].name@ == labeled_name(entries@[k].0@, Unit::Watt)
                    &&& r@[k].value == entries@[k].1
                },
        decreases entries@.len() - i,
    {
        let name = with_unit(entries[i].0.as_str(), Unit::Watt);
        r.push(PowerStatusBreakdownMetric { measurement: Measurement::Power, category, name, value: entries[i].1 });
        i += 1;
    }
    r
}

/// One generation breakdown metric per source `(name, watts)`, in order.
pub fn create_generation_metrics(sources: Vec<(String, i64)>) -> (r: Vec<PowerStatusBreakdownMetric>)
    ensures
        is_breakdown_of(sources@, PowerStatusBreakdownMetricCategory::Generation, r@),
{
    breakdown_metrics(sources, PowerStatusBreakdownMetricCategory::Generation)
}

/// One consumption breakdown metric per device `(name, watts)`, in order.
pub fn create_consumption_metrics(devices: Vec<(String, i64)>) -> (r: Vec<PowerStatusBreakdownMetric>)
    ensures
        is_breakdown_of(devices@, PowerStatusBreakdownMetricCategory::Consumption, r@),
{
    breakdown_metrics(devices, PowerStatusBreakdownMetricCategory::Consumption)
}

/// A name without every trailing `(W)`.
pub open spec fn without_watt_suffix(name: Seq<char>) -> Seq<char>
    decreases name.len(),
{
    if name.len() >= 3 && name.subrange(name.len() - 3, name.len() as int) == "(W)"@ {
        without_watt_suffix(name.subrange(0, name.len() - 3))
    } else {
        name
    }
}

/// Stripping the unit undoes labeling in watts: a device name that does not itself end with
/// `(W)` comes back unchanged from `name(W)`.
pub proof fn lemma_strip_undoes_watt_label(name: Seq<char>)
    requires
        !(name.len() >= 3 && name.subrange(name.len() - 3, name.len() as int) == "(W)"@),
    ensures
        without_watt_suffix(labeled_name(name, Unit::Watt)) == name,
{
    reveal_strlit("(");
    reveal_strlit(")");
    reveal_strlit("W");
    reveal_strlit("(W)");
    let labeled = labeled_name(name, Unit::Watt);
    assert(labeled =~= name + "(W)"@);
    assert(labeled.subrange(labeled.len() - 3, labeled.len() as int) =~= "(W)"@);
    assert(labeled.subrange(0, labeled.len() - 3) =~= name);
    assert(without_watt_suffix(name) == name);
    assert(without_watt_suffix(labeled) == without_watt_suffix(labeled.subrange(0, labeled.len() - 3)));
}

/// Whether `name` ends with `(W)` at `len` characters.
fn ends_with_watt(chars: &Vec<char>, len: usize) -> (r: bool)
    requires
        len <= chars@.len(),
    ensures
        r == (len >= 3 && chars@.subrange(len - 3, len as int) == "(W)"@),
{
    proof {
        reveal_strlit("(W)");
    }
    if len >= 3 && chars[len - 3] == '(' && chars[len - 2] == 'W' && chars[len - 1] == ')' {
        proof {
            assert(chars@.subrange(len - 3, len as int) =~= "(W)"@);
        }
        true
    } else {
        proof {
            if len >= 3 && chars@.subrange(len - 3, len as int) == "(W)"@ {
                assert(chars@.subrange(len - 3, len as int)[0] == chars@[len - 3]);
                assert(chars@.subrange(len - 3, len as int)[1] == chars@[len - 2]);
                assert(chars@.subrange(len - 3, len as int)[2] == chars@[len - 1]);
            }
        }
        false
    }
}

/// The name without every trailing `(W)`.
pub fn trim_watt_suffix(name: &str) -> (r: String)
    ensures
        r@ == without_watt_suffix(name@),
{
    let chars = crate::text::chars_of(name);
    let mut len: usize = chars.len();
    proof {
        assert(name@.subrange(0, len as int) =~= name@);
    }
    while ends_with_watt(&chars, len)
        invariant
            chars@ == name@,
            len <= chars@.len(),
            without_watt_suffix(name@) == without_watt_suffix(name@.subrange(0, len as int)),
        decreases len,
    {
        proof {
            let s = name@.subrange(0, len as int);
            assert(s.subrange(s.len() - 3, s.len() as int) =~= chars@.subrange(len - 3, len as int));
            assert(s.subrange(0, s.len() - 3) =~= name@.subrange(0, len - 3));
        }
        len = len - 3;
    }
    proof {
        let s = name@.subrange(0, len as int);
        if s.len() >= 3 {
            assert(s.subrange(s.len() - 3, s.len() as int) =~= chars@.subrange(len - 3, len as int));
        }
    }
    let mut r = String::new();
    let mut i: usize = 0;
    while i < len
        invariant
            chars@ == name@,
            len <= chars@.len(),
            i <= len,
            r@ == name@.subrange(0, i as int),
        decreases len - i,
    {
        crate::text::push_char(&mut r, chars[i]);
        proof {
            assert(name@.subrange(0, i + 1) =~= name@.subrange(0, i as int).push(name@[i as int]));
        }
        i += 1;
    }
    r
}

/// The devices of merged consumption metrics: each name without its trailing `(W)`, with its
/// value, in order.
pub fn consumption_devices(merged: &Vec<PowerStatusBreakdownMetric>) -> (r: Vec<(String, i64)>)
    ensures
        r@.len() == merged@.len(),
        forall|i: int|
            0 <= i < r@.len() ==> (#[trigger] r@[i]).0@ == without_watt_suffix(merged@[i].name@) && r@[i].1
                == merged@[i].value,
{
    let mut r: Vec<(String, i64)> = Vec::new();
    let mut i: usize = 0;
    while i < merged.len()
        invariant
            i <= merged@.len(),
            r@.len() == i,
            forall|k: int|
                0 <= k < i ==> (#[trigger] r@[k]).0@ == without_watt_suffix(merged@[k].name@) && r@[k].1
                    == merged@[k].value,
        decreases merged@.len() - i,
    {
        r.push((trim_watt_suffix(merged[i].name.as_str()), merged[i].value));
        i += 1;
    }
    r
}

/// A temperature or humidity reading of one place, in tenths of a degree Celsius or of a percent.
#[derive(Debug, Clone, PartialEq, Eq)]
pub struct ClimateReading {
    /// Whether this is a temperature or a humidity
    pub category: ClimateStatusMetricCategory,
    /// The place, e.g. "リビング"
    pub name: String,
    /// The reading in tenths
    pub tenths: u32,
}

impl PageItem for ClimateReading {
    /// A reading is identified by its place and its category: `name-category`.
    open spec fn spec_dedup_key(&self) -> Seq<char> {
        self.name@ + "-"@ + climate_category_label(self.category)
    }

    fn dedup_key(&self) -> (r: String) {
        let mut r = self.name.clone();
        r.append("-");
        let label = self.category.to_string();
        r.append(label.as_str());
        r
    }
}

/// The temperature and humidity readings of a place, in that order.
pub fn create_climate_readings(name: String, temperature_tenths: u32, humidity_tenths: u32) -> (r: Vec<ClimateReading>)
    ensures
        r@.len() == 2,
        r@[0].category == ClimateStatusMetricCategory::Temperature && r@[0].name@ == name@ && r@[0].tenths
            == temperature_tenths,
        r@[1].category == ClimateStatusMetricCategory::Humidity && r@[1].name@ == name@ && r@[1].tenths
            == humidity_tenths,
{
    let mut r: Vec<ClimateReading> = Vec::new();
    let first = copy_string(&name);
    r.push(ClimateReading { category: ClimateStatusMetricCategory::Temperature, name: first, tenths: temperature_tenths });
    r.push(ClimateReading { category: ClimateStatusMetricCategory::Humidity, name, tenths: humidity_tenths });
    r
}

/// A copy of `s`.
fn copy_string(s: &String) -> (r: String)
    ensures
        r@ == s@,
{
    String::from_str(s.as_str())
}

} // verus!
