//! The AiSEG2 pages the collectors read, and what they read from them.
use crate::aiseg::query_builder::{
    circuit_query_json_text, daily_query_json_text, make_circuit_query, make_daily_total_query,
    spec_base64_standard, CalendarDate,
};
use crate::model::types::Unit;
use crate::text::{decimal_text, push_decimal};
use vstd::prelude::*;

verus! {

/// The path of the main electricity flow page (totals and generation sources).
pub fn main_power_page_path() -> (r: String)
    ensures
        r@ == "/page/electricflow/111"@,
{
    String::from_str("/page/electricflow/111")
}

/// The path of the `page`th consumption page.
pub fn consumption_page_path(page: usize) -> (r: String)
    ensures
        r@ == "/page/electricflow/1113?id="@ + decimal_text(page as nat),
{
    let mut s = String::from_str("/page/electricflow/1113?id=");
    push_decimal(&mut s, page as u64);
    s
}

/// The path of the `page`th climate page.
pub fn climate_page_path(page: usize) -> (r: String)
    ensures
        r@ == "/page/airenvironment/41?page="@ + decimal_text(page as nat),
{
    let mut s = String::from_str("/page/airenvironment/41?page=");
    push_decimal(&mut s, page as u64);
    s
}

/// The path of the daily total graph `graph_id` for the given day.
pub fn daily_total_page_path(graph_id: &str, date: CalendarDate) -> (r: String)
    ensures
        r@ == "/page/graph/"@ + graph_id@ + "?data="@ + spec_base64_standard(daily_query_json_text(date)),
{
    let mut s = String::from_str("/page/graph/");
    s.append(graph_id);
    s.append("?data=");
    let query = make_daily_total_query(date);
    s.append(query.as_str());
    s
}

/// The path of the daily total graph of circuit `circuit_id` for the given day.
pub fn circuit_total_page_path(circuit_id: &str, date: CalendarDate) -> (r: String)
    ensures
        r@ == "/page/graph/584?data="@ + spec_base64_standard(circuit_query_json_text(date, circuit_id@)),
{
    let mut s = String::from_str("/page/graph/584?data=");
    let query = make_circuit_query(circuit_id, date);
    s.append(query.as_str());
    s
}

/// The daily totals collected: generation, consumption, buying and selling of power (kWh), hot
/// water (L) and gas (㎥), each by its graph.
pub open spec fn spec_daily_total_graphs() -> Seq<(Seq<char>, Unit)> {
    seq![
        ("51111"@, Unit::Kwh),
        ("52111"@, Unit::Kwh),
        ("53111"@, Unit::Kwh),
        ("54111"@, Unit::Kwh),
        ("55111"@, Unit::Liter),
        ("57111"@, Unit::CubicMeter),
    ]
}

/// The graphs of the daily totals, with their units, in the order they are collected.
pub fn daily_total_graphs() -> (r: Vec<(&'static str, Unit)>)
    ensures
        r@.map_values(|g: (&'static str, Unit)| (g.0@, g.1)) == spec_daily_total_graphs(),
        r@.len() == 6,
        r@[0].0@ == "51111"@ && r@[0].1 == Unit::Kwh,
        r@[1].0@ == "52111"@ && r@[1].1 == Unit::Kwh,
        r@[2].0@ == "53111"@ && r@[2].1 == Unit::Kwh,
        r@[3].0@ == "54111"@ && r@[3].1 == Unit::Kwh,
        r@[4].0@ == "55111"@ && r@[4].1 == Unit::Liter,
        r@[5].0@ == "57111"@ && r@[5].1 == Unit::CubicMeter,
{
    let r = vec![
        ("51111", Unit::Kwh),
        ("52111", Unit::Kwh),
        ("53111", Unit::Kwh),
        ("54111", Unit::Kwh),
        ("55111", Unit::Liter),
        ("57111", Unit::CubicMeter),
    ];
    proof {
        assert(r@.map_values(|g: (&'static str, Unit)| (g.0@, g.1)) =~= spec_daily_total_graphs());
    }
    r
}

/// The electricity totals (graphs 51111 to 54111: generation, consumption, buying, selling) are
/// in kWh, hot water (55111) in liters and gas (57111) in cubic meters; each graph is collected
/// once, in that order.
pub proof fn lemma_daily_total_units()
    ensures
        spec_daily_total_graphs().len() == 6,
        spec_daily_total_graphs()[0] == ("51111"@, Unit::Kwh),
        spec_daily_total_graphs()[1] == ("52111"@, Unit::Kwh),
        spec_daily_total_graphs()[2] == ("53111"@, Unit::Kwh),
        spec_daily_total_graphs()[3] == ("54111"@, Unit::Kwh),
        spec_daily_total_graphs()[4] == ("55111"@, Unit::Liter),
        spec_daily_total_graphs()[5] == ("57111"@, Unit::CubicMeter),
        forall|i: int| 0 <= i < 4 ==> (#[trigger] spec_daily_total_graphs()[i]).1 == Unit::Kwh,
{
}

/// The circuits whose daily consumption is collected: the EV charger (30) and the air
/// conditioners of the living room (27), the master bedroom (26) and the second western room (25).
pub open spec fn spec_monitored_circuits() -> Seq<(Seq<char>, Seq<char>)> {
    seq![("EV"@, "30"@), ("リビングエアコン"@, "27"@), ("主寝室エアコン"@, "26"@), ("洋室２エアコン"@, "25"@)]
}

/// The monitored circuits as (name, circuit id), in the order they are collected.
pub fn monitored_circuits() -> (r: Vec<(&'static str, &'static str)>)
    ensures
        r@.map_values(|c: (&'static str, &'static str)| (c.0@, c.1@)) == spec_monitored_circuits(),
        r@.len() == 4,
        r@[0].0@ == "EV"@ && r@[0].1@ == "30"@,
        r@[1].0@ == "リビングエアコン"@ && r@[1].1@ == "27"@,
        r@[2].0@ == "主寝室エアコン"@ && r@[2].1@ == "26"@,
        r@[3].0@ == "洋室２エアコン"@ && r@[3].1@ == "25"@,
{
    let r = vec![("EV", "30"), ("リビングエアコン", "27"), ("主寝室エアコン", "26"), ("洋室２エアコン", "25")];
    proof {
        assert(r@.map_values(|c: (&'static str, &'static str)| (c.0@, c.1@)) =~= spec_monitored_circuits());
    }
    r
}

} // verus!
