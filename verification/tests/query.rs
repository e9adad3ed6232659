use aiseg2_forwarder::aiseg::query_builder::{
    make_circuit_query, make_daily_total_query, query_json, CalendarDate, QueryBuilder, QueryType,
};
use base64::engine::general_purpose::STANDARD;
use base64::Engine;

fn date(year: i32, month: u32, day: u32) -> CalendarDate {
    CalendarDate { year, month, day }
}

fn decode(query: &str) -> String {
    String::from_utf8(STANDARD.decode(query).unwrap()).unwrap()
}

#[test]
fn test_daily_total_query() {
    let query = QueryBuilder::build(QueryType::DailyTotal { date: date(2024, 6, 6) });
    let decoded = decode(&query);
    assert!(decoded.contains(r#""day":[2024,6,6]"#));
    assert!(decoded.contains(r#""month_compare":"mon""#));
    assert!(decoded.contains(r#""day_compare":"day""#));
}

#[test]
fn test_circuit_daily_total_query() {
    let query = QueryBuilder::build(QueryType::CircuitDailyTotal {
        date: date(2024, 6, 8),
        circuit_id: "30".to_string(),
    });
    let decoded = decode(&query);
    assert!(decoded.contains(r#""day":[2024,6,8]"#));
    assert!(decoded.contains(r#""term":"2024/06/08""#));
    assert!(decoded.contains(r#""termStr":"day""#));
    assert!(decoded.contains(r#""id":"1""#));
    assert!(decoded.contains(r#""circuitid":"30""#));
}

#[test]
fn test_backward_compatibility_daily() {
    let query = make_daily_total_query(date(2024, 2, 29));
    let decoded = decode(&query);
    assert!(decoded.contains(r#""day":[2024,2,29]"#));
}

#[test]
fn test_backward_compatibility_circuit() {
    let query = make_circuit_query("25", date(2023, 12, 31));
    let decoded = decode(&query);
    assert!(decoded.contains(r#""day":[2023,12,31]"#));
    assert!(decoded.contains(r#""term":"2023/12/31""#));
    assert!(decoded.contains(r#""circuitid":"25""#));
}

#[test]
fn test_different_circuit_ids() {
    for circuit_id in ["25", "26", "27", "30"] {
        let query = make_circuit_query(circuit_id, date(2025, 1, 15));
        let decoded = decode(&query);
        assert!(decoded.contains(&format!(r#""circuitid":"{}""#, circuit_id)));
    }
}

#[test]
fn test_daily_query_exact_json() {
    let json = query_json(&QueryType::DailyTotal { date: date(2024, 6, 6) });
    assert_eq!(json, r#"{"day":[2024,6,6],"month_compare":"mon","day_compare":"day"}"#);
    let query = make_daily_total_query(date(2024, 6, 6));
    assert_eq!(query, STANDARD.encode(json.as_bytes()));
    assert_ne!(query, json);
}

#[test]
fn test_circuit_query_exact_json() {
    let json = query_json(&QueryType::CircuitDailyTotal { date: date(2024, 6, 8), circuit_id: "30".to_string() });
    assert_eq!(
        json,
        r#"{"day":[2024,6,8],"term":"2024/06/08","termStr":"day","id":"1","circuitid":"30"}"#
    );
}

#[test]
fn test_term_pads_small_years() {
    let json = query_json(&QueryType::CircuitDailyTotal { date: date(987, 1, 2), circuit_id: "1".to_string() });
    assert!(json.contains(r#""day":[987,1,2]"#));
    assert!(json.contains(r#""term":"0987/01/02""#));
    let json = query_json(&QueryType::CircuitDailyTotal { date: date(-5, 12, 31), circuit_id: "1".to_string() });
    assert!(json.contains(r#""day":[-5,12,31]"#));
    assert!(json.contains(r#""term":"-0005/12/31""#));
    let json = query_json(&QueryType::CircuitDailyTotal { date: date(12345, 3, 4), circuit_id: "1".to_string() });
    assert!(json.contains(r#""term":"+12345/03/04""#));
}
