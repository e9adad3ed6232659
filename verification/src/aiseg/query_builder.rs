//! Query strings for AiSEG2 graph pages: a small JSON document, Base64-encoded.
use crate::text::{push_signed_decimal, push_decimal, push_zero_padded, decimal_text, signed_decimal_text, zero_padded};
use base64::Engine;
use vstd::prelude::*;

verus! {

/// A calendar date in the local time zone, as the AiSEG2 queries use it.
#[derive(Debug, Clone, Copy, PartialEq, Eq, Structural)]
pub struct CalendarDate {
    /// Year (may be negative, as chrono allows)
    pub year: i32,
    /// Month, 1 to 12
    pub month: u32,
    /// Day of the month, 1 to 31
    pub day: u32,
}

/// The Base64 (standard alphabet, with padding) encoding of the UTF-8 bytes of `text`,
/// as `base64::engine::general_purpose::STANDARD` computes it.
pub uninterp spec fn spec_base64_standard(text: Seq<char>) -> Seq<char>;

/// Encodes the UTF-8 bytes of `text` in Base64 with the standard alphabet and padding,
/// through `base64::engine::general_purpose::STANDARD.encode`; the result is named
/// `spec_base64_standard` of the text.
#[verifier::external_body]
fn base64_standard_encode(text: &str) -> (r: String)
    ensures
        r@ == spec_base64_standard(text@),
{
    base64::engine::general_purpose::STANDARD.encode(text)
}

/// Types of queries supported by the AiSEG2 API.
#[derive(Debug, Clone)]
pub enum QueryType {
    /// Daily total query for general metrics
    DailyTotal { date: CalendarDate },
    /// Circuit-specific daily total query
    CircuitDailyTotal { date: CalendarDate, circuit_id: String },
}

/// The year as chrono's `%Y` writes it: four digits, zero-padded, for years 0 to 9999;
/// otherwise a sign followed by at least four digits.
pub open spec fn year_text(year: int) -> Seq<char> {
    if 0 <= year <= 9999 {
        zero_padded(decimal_text(year as nat), 4)
    } else if year > 9999 {
        seq!['+'] + zero_padded(decimal_text(year as nat), 4)
    } else {
        seq!['-'] + zero_padded(decimal_text((-year) as nat), 4)
    }
}

/// The date as chrono's `%Y/%m/%d` writes it.
pub open spec fn slashed_date_text(date: CalendarDate) -> Seq<char> {
    year_text(date.year as int) + "/"@ + zero_padded(decimal_text(date.month as nat), 2) + "/"@ + zero_padded(
        decimal_text(date.day as nat),
        2,
    )
}

/// The `"day":[year,month,day]` member shared by both queries.
pub open spec fn day_member_text(date: CalendarDate) -> Seq<char> {
    "{\"day\":["@ + signed_decimal_text(date.year as int) + ","@ + decimal_text(date.month as nat) + ","@
        + decimal_text(date.day as nat) + "]"@
}

/// The JSON text of the daily total query, before encoding.
pub open spec fn daily_query_json_text(date: CalendarDate) -> Seq<char> {
    day_member_text(date) + ",\"month_compare\":\"mon\",\"day_compare\":\"day\"}"@
}

/// The JSON text of the circuit daily total query, before encoding.
pub open spec fn circuit_query_json_text(date: CalendarDate, circuit_id: Seq<char>) -> Seq<char> {
    day_member_text(date) + ",\"term\":\""@ + slashed_date_text(date)
        + "\",\"termStr\":\"day\",\"id\":\"1\",\"circuitid\":\""@ + circuit_id + "\"}"@
}

/// The JSON text of a query, before encoding.
pub open spec fn query_json_text(query: QueryType) -> Seq<char> {
    match query {
        QueryType::DailyTotal { date } => daily_query_json_text(date),
        QueryType::CircuitDailyTotal { date, circuit_id } => circuit_query_json_text(date, circuit_id@),
    }
}

/// Appends `year_text(year)` to `s`.
fn push_year(s: &mut String, year: i32)
    ensures
        final(s)@ == old(s)@ + year_text(year as int),
{
    if 0 <= year && year <= 9999 {
        push_zero_padded(s, year as u64, 4);
    } else if year > 9999 {
        s.append("+");
        push_zero_padded(s, year as u64, 4);
        proof {
            reveal_strlit("+");
            assert(old(s)@ + "+"@ + zero_padded(decimal_text(year as nat), 4) =~= old(s)@ + (seq!['+'] + zero_padded(
                decimal_text(year as nat),
                4,
            )));
        }
    } else {
        s.append("-");
        let magnitude: u64 = if year == i32::MIN {
            2_147_483_648u64
        } else {
            (-year) as u64
        };
        push_zero_padded(s, magnitude, 4);
        proof {
            reveal_strlit("-");
            assert(old(s)@ + "-"@ + zero_padded(decimal_text(magnitude as nat), 4) =~= old(s)@ + (seq!['-'] + zero_padded(
                decimal_text((-year) as nat),
                4,
            )));
        }
    }
}

/// Appends the `"day":[...]` opening of a query to `s`.
fn push_day_member(s: &mut String, date: CalendarDate)
    ensures
        final(s)@ == old(s)@ + day_member_text(date),
{
    let ghost before = s@;
    s.append("{\"day\":[");
    push_signed_decimal(s, date.year as i64);
    s.append(",");
    push_decimal(s, date.month as u64);
    s.append(",");
    push_decimal(s, date.day as u64);
    s.append("]");
    proof {
        assert(s@ =~= before + day_member_text(date));
    }
}

/// The JSON text of a query, before encoding.
pub fn query_json(query: &QueryType) -> (r: String)
    ensures
        r@ == query_json_text(*query),
{
    let mut s = String::new();
    match query {
        QueryType::DailyTotal { date } => {
            push_day_member(&mut s, *date);
            s.append(",\"month_compare\":\"mon\",\"day_compare\":\"day\"}");
            proof {
                assert(s@ =~= query_json_text(*query));
            }
        },
        QueryType::CircuitDailyTotal { date, circuit_id } => {
            push_day_member(&mut s, *date);
            s.append(",\"term\":\"");
            push_year(&mut s, date.year);
            s.append("/");
            push_zero_padded(&mut s, date.month as u64, 2);
            s.append("/");
            push_zero_padded(&mut s, date.day as u64, 2);
            s.append("\",\"termStr\":\"day\",\"id\":\"1\",\"circuitid\":\"");
            s.append(circuit_id.as_str());
            s.append("\"}");
            proof {
                assert(s@ =~= query_json_text(*query));
            }
        },
    }
    s
}

/// Builder for AiSEG2 query strings.
pub struct QueryBuilder;

impl QueryBuilder {
    /// The Base64-encoded JSON query string for the given query type.
    pub fn build(query_type: QueryType) -> (r: String)
        ensures
            r@ == spec_base64_standard(query_json_text(query_type)),
    {
        let json = query_json(&query_type);
        base64_standard_encode(json.as_str())
    }
}

/// The query for the daily totals of the given day.
pub fn make_daily_total_query(date: CalendarDate) -> (r: String)
    ensures
        r@ == spec_base64_standard(daily_query_json_text(date)),
{
    QueryBuilder::build(QueryType::DailyTotal { date })
}

/// The query for the daily total of one circuit on the given day.
pub fn make_circuit_query(circuit_id: &str, date: CalendarDate) -> (r: String)
    ensures
        r@ == spec_base64_standard(circuit_query_json_text(date, circuit_id@)),
{
    let id = String::from_str(circuit_id);
    QueryBuilder::build(QueryType::CircuitDailyTotal { date, circuit_id: id })
}

} // verus!
