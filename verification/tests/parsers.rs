use aiseg2_forwarder::aiseg::climate_metric_collector::parse;
use aiseg2_forwarder::aiseg::climate_parser;
use aiseg2_forwarder::error::ParseError;
use aiseg2_forwarder::aiseg::html::HtmlDocument;
use aiseg2_forwarder::aiseg::metrics::{create_climate_readings, create_total_power_metrics};
use aiseg2_forwarder::aiseg::parser_adapters::{ClimatePageParserAdapter, CustomPowerParser, ParserAdapterBuilder};
use aiseg2_forwarder::aiseg::parser_traits::{HtmlParser, ParseContext};
use aiseg2_forwarder::aiseg::test_helpers::create_climate_html;
use aiseg2_forwarder::model::ClimateStatusMetricCategory;

fn page(content: &str) -> HtmlDocument {
    HtmlDocument::parse(&format!(r#"<html><body>{}</body></html>"#, content))
}

fn kw(text: &str) -> f64 {
    text.parse::<f64>().unwrap()
}

fn main_page(g: &str, u: &str, details: &[(&str, &str)]) -> HtmlDocument {
    let mut html = format!(r#"<div id="g_capacity">{}</div><div id="u_capacity">{}</div>"#, g, u);
    for (i, (name, capacity)) in details.iter().enumerate() {
        html.push_str(&format!(
            r#"<div id="g_d_{}_title"><span>{}</span></div><div id="g_d_{}_capacity"><span>{}</span></div>"#,
            i + 1,
            name,
            i + 1,
            capacity
        ));
    }
    page(&html)
}

struct TestParser;

impl HtmlParser for TestParser {
    type Output = String;

    fn parse(&self, _document: &HtmlDocument) -> Result<Self::Output, String> {
        Ok("test".to_string())
    }
}

#[test]
fn test_parser_trait() {
    let parser = TestParser;
    let html = HtmlDocument::parse("<html></html>");
    assert_eq!(parser.parse(&html).unwrap(), "test");
}

#[test]
fn test_parse_context() {
    let context = ParseContext::new("TestOperation").with_context("additional info");
    let message = context.error_message("something went wrong");
    assert_eq!(message, "TestOperation: something went wrong (additional info)");
}

#[test]
fn test_parse_context_without_context() {
    let context = ParseContext::new("Op");
    assert_eq!(context.error_message("bad"), "Op: bad");
}

#[test]
fn test_total_power_adapter() {
    let html = page(r#"<div id="g_capacity">2.5</div><div id="u_capacity">3.8</div>"#);
    let (g, u) = ParserAdapterBuilder::total_power().parse(&html).unwrap();
    assert_eq!((kw(&g), kw(&u)), (2.5, 3.8));
}

#[test]
fn test_parse_total_power() {
    let html = page(r#"<div id="g_capacity">2.5</div>
               <div id="u_capacity">3.8</div>"#);
    let (g, u) = ParserAdapterBuilder::total_power().parse(&html).unwrap();
    assert_eq!(kw(&g), 2.5);
    assert_eq!(kw(&u), 3.8);
}

#[test]
fn test_generation_sources_adapter() {
    let html = page(r#"<div id="g_d_1_title"><span>Solar</span></div>
                <div id="g_d_1_capacity"><span>2.5</span></div>"#);
    let result = ParserAdapterBuilder::generation_sources().parse(&html).unwrap();
    assert_eq!(result.len(), 1);
    assert_eq!((result[0].0.clone(), kw(&result[0].1) * 1000.0), ("Solar".to_string(), 2500.0));
}

#[test]
fn test_parse_generation_sources() {
    let html = page(
        r#"<div id="g_d_1_title"><span>太陽光</span></div>
           <div id="g_d_1_capacity"><span>2.5</span></div>
           <div id="g_d_2_title"><span>燃料電池</span></div>
           <div id="g_d_2_capacity"><span>0.5</span></div>"#,
    );
    let sources = ParserAdapterBuilder::generation_sources().parse(&html).unwrap();
    assert_eq!(sources.len(), 2);
    assert_eq!((sources[0].0.clone(), kw(&sources[0].1) * 1000.0), ("太陽光".to_string(), 2500.0));
    assert_eq!((sources[1].0.clone(), kw(&sources[1].1) * 1000.0), ("燃料電池".to_string(), 500.0));
}

#[test]
fn test_generation_sources_stop_at_four() {
    let details = [("a", "1"), ("b", "2"), ("c", "3"), ("d", "4"), ("e", "5")];
    let sources = ParserAdapterBuilder::generation_sources().parse(&main_page("1", "1", &details)).unwrap();
    assert_eq!(sources.len(), 4);
    assert_eq!(sources[3].0, "d");
}

#[test]
fn test_collect_total_metrics_valid_html() {
    let (g, u) = ParserAdapterBuilder::total_power().parse(&main_page("2.5", "3.8", &[])).unwrap();
    let metrics = create_total_power_metrics((kw(&g) * 1000.0) as i64, (kw(&u) * 1000.0) as i64);
    assert_eq!(metrics.len(), 3);
    assert_eq!(metrics[0].name, "総発電電力(W)");
    assert_eq!(metrics[0].value, 2500);
    assert_eq!(metrics[1].name, "総消費電力(W)");
    assert_eq!(metrics[1].value, 3800);
    assert_eq!(metrics[2].name, "売買電力(W)");
    assert_eq!(metrics[2].value, -1300);
}

#[test]
fn test_collect_generation_detail_metrics_valid_html() {
    let details = [("太陽光", "2.5"), ("燃料電池", "0.5"), ("蓄電池", "0.2"), ("その他", "0.1")];
    let sources = ParserAdapterBuilder::generation_sources().parse(&main_page("2.5", "3.8", &details)).unwrap();
    assert_eq!(sources.len(), 4);
}

#[test]
fn test_collect_generation_detail_metrics_partial() {
    let details = [("太陽光", "2.5"), ("燃料電池", "0.5")];
    let sources = ParserAdapterBuilder::generation_sources().parse(&main_page("2.5", "3.8", &details)).unwrap();
    assert_eq!(sources.len(), 2);
}

#[test]
fn test_collect_total_metrics_calculates_sell_buy_power() {
    for (generation, consumption, expected) in [("5.0", "3.0", 2000), ("2.0", "4.0", -2000), ("3.0", "3.0", 0)] {
        let (g, u) = ParserAdapterBuilder::total_power().parse(&main_page(generation, consumption, &[])).unwrap();
        let metrics = create_total_power_metrics((kw(&g) * 1000.0) as i64, (kw(&u) * 1000.0) as i64);
        assert_eq!(metrics.len(), 3);
        assert_eq!(metrics[2].value, expected);
    }
}

#[test]
fn test_collect_total_metrics_missing_g_capacity() {
    let html = HtmlDocument::parse(r#"<html><body><div id="u_capacity">3.8</div></body></html>"#);
    let result = ParserAdapterBuilder::total_power().parse(&html);
    assert!(result.unwrap_err().contains("Failed to find value"));
}

#[test]
fn test_collect_total_metrics_missing_u_capacity() {
    let html = HtmlDocument::parse(r#"<html><body><div id="g_capacity">2.5</div></body></html>"#);
    let result = ParserAdapterBuilder::total_power().parse(&html);
    assert!(result.unwrap_err().contains("Failed to find value"));
}

#[test]
fn test_collect_total_metrics_invalid_numeric() {
    let html = HtmlDocument::parse(
        r#"<html><body><div id="g_capacity">invalid</div><div id="u_capacity">3.8</div></body></html>"#,
    );
    let result = ParserAdapterBuilder::total_power().parse(&html);
    assert!(result.unwrap_err().contains("Failed to parse value"));
}

#[test]
fn test_consumption_page_adapter_names_in_watts() {
    let html = page(
        r#"<div id="stage_1"><div class="c_device">エアコン</div><div class="c_value">1500</div></div>
           <div id="stage_2"><div class="c_device">冷蔵庫</div><div class="c_value">-</div></div>"#,
    );
    let items = ParserAdapterBuilder::consumption_page().parse(&html).unwrap();
    assert_eq!(items.len(), 2);
    assert_eq!(items[0], ("エアコン(W)".to_string(), Some("1500".to_string())));
    assert_eq!(items[1], ("冷蔵庫(W)".to_string(), None));
}

#[test]
fn test_consumption_page_reads_ten_entries_at_most() {
    let mut html = String::new();
    for i in 1..=12 {
        html.push_str(&format!(
            r#"<div id="stage_{}"><div class="c_device">d{}</div><div class="c_value">{}</div></div>"#,
            i, i, i
        ));
    }
    let items = ParserAdapterBuilder::consumption_page().parse(&page(&html)).unwrap();
    assert_eq!(items.len(), 10);
    assert_eq!(items[9].0, "d10(W)");
}

#[test]
fn test_custom_parser() {
    let html = HtmlDocument::parse(
        r#"<html><body>
            <div id="stage_1"><div class="c_device">Device 1</div><div class="c_value">100</div></div>
            <div id="stage_2"><div class="c_device">Device 2</div><div class="c_value">200</div></div>
        </body></html>"#,
    );
    let parser = CustomPowerParser::new(5);
    let device_names = parser.parse(&html).unwrap();
    assert_eq!(device_names.len(), 2);
    assert_eq!(device_names[0], "Device 1");
    assert_eq!(device_names[1], "Device 2");
    assert_eq!(CustomPowerParser::new(1).parse(&html).unwrap(), vec!["Device 1".to_string()]);
}

#[test]
fn test_parse_climate_location() {
    let html = HtmlDocument::parse(&create_climate_html(vec![("リビング", "235", "650")]));
    let (name, temperature, humidity) =
        ClimatePageParserAdapter.parse_climate_location(&html, "#base1_1").unwrap();
    assert_eq!(name, "リビング");
    assert_eq!(temperature as f64 / 10.0, 23.5);
    assert_eq!(humidity as f64 / 10.0, 65.0);
}

#[test]
fn test_parse_climate_page() {
    let html = HtmlDocument::parse(&create_climate_html(vec![
        ("リビング", "235", "650"),
        ("寝室", "210", "550"),
        ("子供部屋", "225", "600"),
    ]));
    let metrics = ParserAdapterBuilder::climate_page().parse(&html).unwrap();
    assert_eq!(metrics.len(), 6);
    assert_eq!(metrics[0].name, "リビング");
    assert_eq!(metrics[0].category, ClimateStatusMetricCategory::Temperature);
    assert_eq!(metrics[0].tenths as f64 / 10.0, 23.5);
    assert_eq!(metrics[1].name, "リビング");
    assert_eq!(metrics[1].category, ClimateStatusMetricCategory::Humidity);
    assert_eq!(metrics[1].tenths as f64 / 10.0, 65.0);
    assert_eq!(metrics[2].name, "寝室");
    assert_eq!(metrics[2].tenths as f64 / 10.0, 21.0);
    assert_eq!(metrics[3].name, "寝室");
    assert_eq!(metrics[3].tenths as f64 / 10.0, 55.0);
}

#[test]
fn test_parse_climate_page_partial() {
    let html = HtmlDocument::parse(&create_climate_html(vec![("リビング", "235", "650")]));
    let metrics = ParserAdapterBuilder::climate_page().parse(&html).unwrap();
    assert_eq!(metrics.len(), 2);
}

#[test]
fn test_parse_single_base_element() {
    let html = HtmlDocument::parse(&create_climate_html(vec![("Living Room", "235", "456")]));
    let (name, temperature, humidity) =
        parse(&html, "#base1_1").unwrap();
    assert_eq!(name, "Living Room");
    assert_eq!(temperature as f64 / 10.0, 23.5);
    assert_eq!(humidity as f64 / 10.0, 45.6);
}

#[test]
fn test_parse_missing_base_element() {
    let html = HtmlDocument::parse(r#"<html><body><div>No base element</div></body></html>"#);
    let result = parse(&html, "#base1_1");
    assert!(result.unwrap_err().contains("Failed to find value"));
}

#[test]
fn test_parse_missing_name_element() {
    let html = HtmlDocument::parse(
        r#"<div id="base1_1"><div class="num_wrapper"><div id="num_ond_1" class="num2"></div></div></div>"#,
    );
    let result = parse(&html, "#base1_1");
    assert!(result.unwrap_err().contains("Failed to find name"));
}

#[test]
fn test_parse_missing_num_wrapper() {
    let html = HtmlDocument::parse(r#"<div id="base1_1"><div class="txt_name">Room</div></div>"#);
    let result = parse(&html, "#base1_1");
    assert!(result.unwrap_err().contains("Failed to find num_wrapper"));
}

#[test]
fn test_parse_missing_temperature() {
    let html = HtmlDocument::parse(
        r#"<div id="base1_1">
            <div class="txt_name">Room</div>
            <div class="num_wrapper">
                <div id="num_shitudo_1_1" class="num no5"></div>
                <div id="num_shitudo_1_2" class="num no0"></div>
                <div id="num_shitudo_1_3" class="num no0"></div>
            </div>
        </div>"#,
    );
    let (_, temperature, humidity) = parse(&html, "#base1_1").unwrap();
    assert_eq!(temperature as f64 / 10.0, 0.0);
    assert_eq!(humidity as f64 / 10.0, 50.0);
}

#[test]
fn test_parse_missing_humidity() {
    let html = HtmlDocument::parse(
        r#"<div id="base1_1">
            <div class="txt_name">Room</div>
            <div class="num_wrapper">
                <div id="num_ond_1_1" class="num no2"></div>
                <div id="num_ond_1_2" class="num no5"></div>
                <div id="num_ond_1_3" class="num no0"></div>
            </div>
        </div>"#,
    );
    let (_, temperature, humidity) = parse(&html, "#base1_1").unwrap();
    assert_eq!(temperature as f64 / 10.0, 25.0);
    assert_eq!(humidity as f64 / 10.0, 0.0);
}

#[test]
fn test_climate_page_stops_at_missing_place() {
    let mut html = create_climate_html(vec![("A", "100", "200")]);
    html = html.replace("</body>", r#"<div id="base3_1"><div class="txt_name">C</div></div></body>"#);
    let readings = ParserAdapterBuilder::climate_page().parse(&HtmlDocument::parse(&html)).unwrap();
    assert_eq!(readings.len(), 2);
}

#[test]
fn test_climate_reading_bad_digit_message() {
    let html = HtmlDocument::parse(
        r#"<div id="base1_1"><div class="txt_name">R</div><div class="num_wrapper">
            <div id="num_ond_1_1" class="num no٣"></div></div></div>"#,
    );
    let err = ClimatePageParserAdapter.parse_climate_location(&html, "#base1_1").unwrap_err();
    assert_eq!(err, "failed to parse number from '٣0.0': invalid float literal");
}

#[test]
fn test_parse_power_with_traits() {
    let html = HtmlDocument::parse(
        r#"<html><body>
            <div id="stage_1"><div class="c_device">エアコン</div><div class="c_value">1500</div></div>
        </body></html>"#,
    );
    let entries = ParserAdapterBuilder::consumption_page().parse(&html).unwrap();
    assert_eq!(entries.len(), 1);
    assert_eq!(entries[0].0, "エアコン(W)");
    let watts = entries[0].1.as_ref().map(|t| t.parse::<f64>().unwrap()).unwrap_or(0.0).trunc() as i64;
    assert_eq!(watts, 1500);
}

#[test]
fn test_parse_climate_with_traits() {
    let html = HtmlDocument::parse(
        r#"<html><body>
            <div id="base1_1">
                <div class="txt_name">リビング</div>
                <div class="num_wrapper">
                    <span id="num_ond_1_1" class="num no2"></span>
                    <span id="num_ond_1_2" class="num no3"></span>
                    <span id="num_ond_1_3" class="num no5"></span>
                    <span id="num_shitudo_1_1" class="num no6"></span>
                    <span id="num_shitudo_1_2" class="num no5"></span>
                    <span id="num_shitudo_1_3" class="num no0"></span>
                </div>
            </div>
        </body></html>"#,
    );
    let metrics = ParserAdapterBuilder::climate_page().parse(&html).unwrap();
    assert_eq!(metrics.len(), 2);
    assert_eq!(metrics[0].name, "リビング");
    assert_eq!(metrics[0].tenths as f64 / 10.0, 23.5);
    assert_eq!(metrics[1].name, "リビング");
    assert_eq!(metrics[1].tenths as f64 / 10.0, 65.0);
}

#[test]
fn test_create_climate_metrics() {
    let metrics = create_climate_readings("リビング".to_string(), 235, 650);
    assert_eq!(metrics.len(), 2);
    assert_eq!(metrics[0].name, "リビング");
    assert_eq!(metrics[0].tenths as f64 / 10.0, 23.5);
    assert_eq!(metrics[0].category, ClimateStatusMetricCategory::Temperature);
    assert_eq!(metrics[1].name, "リビング");
    assert_eq!(metrics[1].tenths as f64 / 10.0, 65.0);
    assert_eq!(metrics[1].category, ClimateStatusMetricCategory::Humidity);
}

#[test]
fn test_adapter_reports_missing_base_element() {
    let html = HtmlDocument::parse(r#"<html><body><div>No base element</div></body></html>"#);
    let result = ClimatePageParserAdapter.parse_climate_location(&html, "#base1_1");
    assert_eq!(result.unwrap_err(), "Failed to find base element");
}

#[test]
fn test_strict_parse_requires_classes() {
    let html = HtmlDocument::parse(
        r#"<div id="base1_1"><div class="txt_name">R</div><div class="num_wrapper">
            <div id="num_ond_1_1" class="num no2"></div><div id="num_ond_1_2" class="num nox"></div></div></div>"#,
    );
    assert_eq!(parse(&html, "#base1_1").unwrap_err(), "No numeric character found in class");
    assert!(ClimatePageParserAdapter.parse_climate_location(&html, "#base1_1").is_ok());
}

#[test]
fn test_typed_parse_climate_location() {
    let html = HtmlDocument::parse(&create_climate_html(vec![("リビング", "235", "650")]));
    let (name, temperature, humidity) = climate_parser::parse_climate_location(&html, "#base1_1").unwrap();
    assert_eq!((name.as_str(), temperature, humidity), ("リビング", 235, 650));
    let missing = HtmlDocument::parse("<div>none</div>");
    match climate_parser::parse_climate_location(&missing, "#base1_1") {
        Err(ParseError::ElementNotFound { selector }) => assert_eq!(selector, "#base1_1"),
        other => panic!("unexpected {:?}", other),
    }
    let empty_name = HtmlDocument::parse(r#"<div id="base1_1"><div class="txt_name"></div></div>"#);
    match climate_parser::parse_climate_location(&empty_name, "#base1_1") {
        Err(ParseError::EmptyElement { selector }) => assert_eq!(selector, ".txt_name"),
        other => panic!("unexpected {:?}", other),
    }
    match climate_parser::parse_climate_location(&missing, ":::") {
        Err(ParseError::InvalidSelector { selector, .. }) => assert_eq!(selector, ":::"),
        other => panic!("unexpected {:?}", other),
    }
}
