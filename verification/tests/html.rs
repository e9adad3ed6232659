use aiseg2_forwarder::aiseg::climate_metric_collector::extract_num_from_html_class;
use aiseg2_forwarder::aiseg::helper::{html_selector, parse_decimal_text_from_html, parse_text_from_html};
use aiseg2_forwarder::aiseg::html::HtmlDocument;
use aiseg2_forwarder::aiseg::html_parsing::{
    extract_tenths_from_digit_elements, extract_text, graph_page_texts, parse_consumption_device,
    parse_generation_details,
};
use aiseg2_forwarder::error::ParseError;

fn decimal(html: &str, selector: &str) -> Result<f64, String> {
    let document = HtmlDocument::parse(html);
    parse_decimal_text_from_html(&document, selector).map(|t| t.parse::<f64>().unwrap())
}

#[test]
fn test_parse_text_from_html_valid_element() {
    let html = HtmlDocument::parse(r#"<div class="test">Hello World</div>"#);
    let result = parse_text_from_html(&html, ".test");
    assert!(result.is_ok());
    assert_eq!(result.unwrap(), "Hello World");
}

#[test]
fn test_parse_text_from_html_with_nested_elements() {
    let html = HtmlDocument::parse(r#"<div class="test"><span>Hello</span> <span>World</span></div>"#);
    let result = parse_text_from_html(&html, ".test");
    assert!(result.is_ok());
    assert_eq!(result.unwrap(), "Hello World");
}

#[test]
fn test_parse_text_from_html_with_whitespace() {
    let html = HtmlDocument::parse(r#"<div class="test">  Hello   World  </div>"#);
    let result = parse_text_from_html(&html, ".test");
    assert!(result.is_ok());
    assert_eq!(result.unwrap(), "  Hello   World  ");
}

#[test]
fn test_html_selector_valid_class() {
    assert!(html_selector(".test-class").is_ok());
}

#[test]
fn test_html_selector_valid_id() {
    assert!(html_selector("#test-id").is_ok());
}

#[test]
fn test_html_selector_valid_element() {
    assert!(html_selector("div").is_ok());
}

#[test]
fn test_html_selector_complex_selector() {
    assert!(html_selector("div.class1.class2 > span#id1").is_ok());
}

#[test]
fn test_parse_f64_from_html_valid_number() {
    assert_eq!(decimal(r#"<div class="value">123.45</div>"#, ".value").unwrap(), 123.45);
}

#[test]
fn test_parse_f64_from_html_with_units() {
    assert_eq!(decimal(r#"<div class="value">123.45kW</div>"#, ".value").unwrap(), 123.45);
}

#[test]
fn test_parse_f64_from_html_with_special_chars() {
    assert_eq!(decimal(r#"<div class="value">¥123.45円</div>"#, ".value").unwrap(), 123.45);
}

#[test]
fn test_parse_f64_from_html_integer() {
    assert_eq!(decimal(r#"<div class="value">123</div>"#, ".value").unwrap(), 123.0);
}

#[test]
fn test_parse_f64_from_html_zero() {
    assert_eq!(decimal(r#"<div class="value">0</div>"#, ".value").unwrap(), 0.0);
}

#[test]
fn test_parse_f64_from_html_negative() {
    assert_eq!(decimal(r#"<div class="value">-123.45</div>"#, ".value").unwrap(), 123.45);
}

#[test]
fn test_parse_text_from_html_element_not_found() {
    let html = HtmlDocument::parse(r#"<div class="test">Hello World</div>"#);
    let result = parse_text_from_html(&html, ".nonexistent");
    assert!(result.unwrap_err().contains("Failed to find value"));
}

#[test]
fn test_parse_text_from_html_no_children() {
    let html = HtmlDocument::parse(r#"<div class="test"></div>"#);
    let result = parse_text_from_html(&html, ".test");
    assert!(result.unwrap_err().contains("Element has no children"));
}

#[test]
fn test_parse_text_from_html_invalid_selector() {
    let html = HtmlDocument::parse(r#"<div class="test">Hello World</div>"#);
    let result = parse_text_from_html(&html, ":::invalid");
    assert!(result.unwrap_err().contains("Failed to parse selector"));
}

#[test]
fn test_html_selector_invalid_syntax() {
    let result = html_selector(":::invalid");
    assert!(result.is_err());
    assert!(result.err().unwrap().contains("Failed to parse selector"));
}

#[test]
fn test_html_selector_empty_string() {
    let result = html_selector("");
    assert!(result.is_err());
    assert!(result.err().unwrap().contains("Failed to parse selector"));
}

#[test]
fn test_parse_f64_from_html_element_not_found() {
    let result = decimal(r#"<div class="value">123.45</div>"#, ".nonexistent");
    assert!(result.unwrap_err().contains("Failed to find value"));
}

#[test]
fn test_parse_f64_from_html_invalid_selector() {
    let result = decimal(r#"<div class="value">123.45</div>"#, ":::invalid");
    assert!(result.unwrap_err().contains("Failed to parse selector"));
}

#[test]
fn test_parse_f64_from_html_no_text() {
    let result = decimal(r#"<div class="value"></div>"#, ".value");
    assert!(result.unwrap_err().contains("Failed to get text"));
}

#[test]
fn test_parse_f64_from_html_no_numeric_content() {
    let result = decimal(r#"<div class="value">abc</div>"#, ".value");
    assert!(result.unwrap_err().contains("Failed to parse value"));
}

#[test]
fn test_parse_f64_from_html_only_special_chars() {
    let result = decimal(r#"<div class="value">¥円$</div>"#, ".value");
    assert!(result.unwrap_err().contains("Failed to parse value"));
}

#[test]
fn test_parse_f64_from_html_multiple_dots() {
    let result = decimal(r#"<div class="value">123.45.67</div>"#, ".value");
    assert!(result.unwrap_err().contains("Failed to parse value"));
}

#[test]
fn test_decimal_text_keeps_digits_and_dot() {
    let document = HtmlDocument::parse(r#"<div class="value">約1,234.5kWh</div>"#);
    assert_eq!(parse_decimal_text_from_html(&document, ".value").unwrap(), "1234.5");
    let document = HtmlDocument::parse(r#"<div class="value">.5</div>"#);
    assert_eq!(parse_decimal_text_from_html(&document, ".value").unwrap(), ".5");
    let document = HtmlDocument::parse(r#"<div class="value">.</div>"#);
    assert_eq!(parse_decimal_text_from_html(&document, ".value").unwrap_err(), "Failed to parse value");
    let document = HtmlDocument::parse(r#"<div class="value">１２</div>"#);
    assert_eq!(parse_decimal_text_from_html(&document, ".value").unwrap_err(), "Failed to parse value");
}

#[test]
fn test_selector_failure_carries_parser_message() {
    let message = html_selector(":::invalid").err().unwrap();
    assert!(message.starts_with("Failed to parse selector: "));
    assert!(message.len() > "Failed to parse selector: ".len());
}

#[test]
fn test_extract_value_string() {
    let html = HtmlDocument::parse(r#"<div id="title">Test Title</div>"#);
    assert_eq!(extract_text(&html, "#title").unwrap(), "Test Title");
}

#[test]
fn test_extract_value_f64() {
    let html = HtmlDocument::parse(r#"<div class="value">123.45</div>"#);
    let value: f64 = extract_text(&html, ".value").unwrap().parse().unwrap();
    assert_eq!(value, 123.45);
}

#[test]
fn test_extract_value_i32() {
    let html = HtmlDocument::parse(r#"<span id="count">42</span>"#);
    let value: i32 = extract_text(&html, "#count").unwrap().parse().unwrap();
    assert_eq!(value, 42);
}

#[test]
fn test_extract_value_with_whitespace() {
    let html = HtmlDocument::parse(r#"<div class="num">  789  </div>"#);
    let value: i32 = extract_text(&html, ".num").unwrap().parse().unwrap();
    assert_eq!(value, 789);
}

#[test]
fn test_extract_value_element_not_found() {
    let html = HtmlDocument::parse(r#"<div>Content</div>"#);
    let result = extract_text(&html, "#missing");
    assert!(result.unwrap_err().to_string().contains("element not found"));
}

#[test]
fn test_extract_value_parse_error() {
    let html = HtmlDocument::parse(r#"<div id="val">not_a_number</div>"#);
    let text = extract_text(&html, "#val").unwrap();
    let err = text.parse::<f64>().map_err(|e| ParseError::number_parse(&text, &e.to_string())).unwrap_err();
    assert!(err.to_string().contains("failed to parse number"));
}

#[test]
fn test_extract_text_invalid_selector() {
    let html = HtmlDocument::parse(r#"<div>Content</div>"#);
    match extract_text(&html, ":::") {
        Err(ParseError::InvalidSelector { selector, .. }) => assert_eq!(selector, ":::"),
        other => panic!("unexpected {:?}", other),
    }
}

#[test]
fn test_parse_graph_page_default_selectors() {
    let html = HtmlDocument::parse(r#"<div id="h_title">Solar Generation</div><div id="val_kwh">2.5</div>"#);
    let (title, value) = graph_page_texts(&html, None, None).unwrap();
    assert_eq!(title, "Solar Generation");
    assert_eq!((value.parse::<f64>().unwrap() * 1000.0).trunc() as i64, 2500);
}

#[test]
fn test_parse_graph_page_custom_selectors() {
    let html = HtmlDocument::parse(r#"<div class="title">Custom Title</div><div class="power">1.234</div>"#);
    let (title, value) = graph_page_texts(&html, Some(".title"), Some(".power")).unwrap();
    assert_eq!(title, "Custom Title");
    assert_eq!((value.parse::<f64>().unwrap() * 1000.0).trunc() as i64, 1234);
}

#[test]
fn test_graph_page_missing_title_fails_first() {
    let html = HtmlDocument::parse(r#"<div id="other">x</div>"#);
    match graph_page_texts(&html, None, None) {
        Err(ParseError::ElementNotFound { selector }) => assert_eq!(selector, "#h_title"),
        other => panic!("unexpected {:?}", other),
    }
    let html = HtmlDocument::parse(r#"<div id="h_title">T</div>"#);
    match graph_page_texts(&html, None, None) {
        Err(ParseError::ElementNotFound { selector }) => assert_eq!(selector, "#val_kwh"),
        other => panic!("unexpected {:?}", other),
    }
}

#[test]
fn test_extract_numeric_from_digit_elements() {
    let html = HtmlDocument::parse(
        r#"<div>
            <span class="num no2"></span>
            <span class="num no3"></span>
            <span class="num no5"></span>
        </div>"#,
    );
    let selector = html_selector(r#"span[class*="num no"]"#).unwrap();
    let elements = html.select(&selector);
    let result = extract_tenths_from_digit_elements(&elements);
    assert!(result.is_ok());
    assert_eq!(result.unwrap() as f64 / 10.0, 23.5);
}

fn wrapper_spans_tenths(html: &str) -> Result<u32, ParseError> {
    let document = HtmlDocument::parse(html);
    let wrapper = document.select(&html_selector("#wrapper").unwrap());
    let spans = wrapper[0].select(&html_selector("span").unwrap());
    extract_tenths_from_digit_elements(&spans)
}

fn wrapper_spans_strict(html: &str) -> Result<u32, String> {
    let document = HtmlDocument::parse(html);
    let wrapper = document.select(&html_selector("#wrapper").unwrap());
    let spans = wrapper[0].select(&html_selector("span").unwrap());
    extract_num_from_html_class(&spans)
}

fn spans(classes: &[&str]) -> String {
    let mut html = String::from(r#"<div id="wrapper">"#);
    for class in classes {
        html.push_str(&format!(r#"<span class="{}"></span>"#, class));
    }
    html.push_str("</div>");
    html
}

#[test]
fn test_extract_num_from_html_class_various_values() {
    let cases = vec![
        (["0", "0", "0"], 0.0),
        (["2", "5", "5"], 25.5),
        (["9", "9", "9"], 99.9),
        (["0", "1", "2"], 1.2),
        (["5", "0", "0"], 50.0),
    ];
    for (digits, expected) in cases {
        let classes: Vec<String> = digits.iter().map(|d| format!("num{}", d)).collect();
        let refs: Vec<&str> = classes.iter().map(|s| s.as_str()).collect();
        let result = wrapper_spans_strict(&spans(&refs));
        assert_eq!(result.unwrap() as f64 / 10.0, expected, "Failed for input {:?}", digits);
    }
}

#[test]
fn test_extract_num_from_html_class_valid_input() {
    assert_eq!(wrapper_spans_strict(&spans(&["num2", "num3", "num4"])).unwrap() as f64 / 10.0, 23.4);
}

#[test]
fn test_extract_num_from_html_class_zero_values() {
    assert_eq!(wrapper_spans_strict(&spans(&["num0", "num0", "num0"])).unwrap() as f64 / 10.0, 0.0);
}

#[test]
fn test_extract_num_from_html_class_mixed_digits() {
    assert_eq!(wrapper_spans_strict(&spans(&["num9", "num8", "num7"])).unwrap() as f64 / 10.0, 98.7);
}

#[test]
fn test_extract_num_from_html_class_with_extra_text() {
    let html = spans(&["prefix_num1_suffix", "text_num2_more", "num3_end"]);
    assert_eq!(wrapper_spans_strict(&html).unwrap() as f64 / 10.0, 12.3);
}

#[test]
fn test_extract_num_from_html_class_too_few_elements() {
    assert_eq!(wrapper_spans_strict(&spans(&["num1", "num2"])).unwrap() as f64 / 10.0, 12.0);
}

#[test]
fn test_extract_num_from_html_class_too_many_elements() {
    let html = spans(&["num1", "num2", "num3", "num0", "num5"]);
    assert_eq!(wrapper_spans_strict(&html).unwrap() as f64 / 10.0, 12.3);
}

#[test]
fn test_digit_elements_without_number_read_as_zero() {
    assert_eq!(wrapper_spans_tenths(&spans(&["invalid", "num2", "num3"])).unwrap(), 23);
    let html = r#"<div id="wrapper"><span></span><span class="num2"></span><span class="num3"></span></div>"#;
    assert_eq!(wrapper_spans_tenths(html).unwrap(), 23);
    assert_eq!(wrapper_spans_tenths(&spans(&[])).unwrap(), 0);
}

#[test]
fn test_non_ascii_digit_is_no_number() {
    match wrapper_spans_tenths(&spans(&["num٣", "num2", "num3"])) {
        Err(ParseError::NumberParse { text, message }) => {
            assert_eq!(text, "٣2.3");
            assert_eq!(message, "invalid float literal");
            assert_eq!(message, "٣2.3".parse::<f64>().unwrap_err().to_string());
        }
        other => panic!("unexpected {:?}", other),
    }
}

#[test]
fn test_parse_consumption_device() {
    let html = HtmlDocument::parse(
        r#"<div id="stage_1">
            <div class="c_device"><span>エアコン</span></div>
            <div class="c_value"><span>1.2</span></div>
        </div>"#,
    );
    let device = parse_consumption_device(&html, "#stage_1");
    assert!(device.is_some());
    let (name, value) = device.unwrap();
    assert_eq!(name, "エアコン");
    assert_eq!(value.unwrap().parse::<f64>().unwrap(), 1.2);
}

#[test]
fn test_consumption_device_without_value_or_name() {
    let html = HtmlDocument::parse(r#"<div id="stage_1"><div class="c_device"><span>X</span></div></div>"#);
    assert_eq!(parse_consumption_device(&html, "#stage_1"), Some(("X".to_string(), None)));
    assert_eq!(parse_consumption_device(&html, "#stage_2"), None);
}

#[test]
fn test_parse_generation_details() {
    let html = HtmlDocument::parse(
        r#"<div>
            <div id="g_d_1_title"><span>太陽光</span></div>
            <div id="g_d_1_capacity"><span>2.5</span></div>
            <div id="g_d_2_title"><span>燃料電池</span></div>
            <div id="g_d_2_capacity"><span>0.5</span></div>
        </div>"#,
    );
    let details = parse_generation_details(&html, 4).unwrap();
    assert_eq!(details.len(), 2);
    assert_eq!(details[0], ("太陽光".to_string(), "2.5".to_string()));
    assert_eq!(details[1], ("燃料電池".to_string(), "0.5".to_string()));
}

#[test]
fn test_generation_details_fail_on_bad_capacity() {
    let html = HtmlDocument::parse(
        r#"<div id="g_d_1_title"><span>A</span></div><div id="g_d_1_capacity"><span>x</span></div>"#,
    );
    assert_eq!(parse_generation_details(&html, 4).unwrap_err(), "Failed to parse value");
    assert_eq!(parse_generation_details(&html, 0).unwrap(), vec![]);
}

#[test]
fn test_extract_num_from_html_class_invalid_no_digit() {
    let result = wrapper_spans_strict(&spans(&["invalid", "num2", "num3"]));
    assert!(result.is_err());
    assert!(result.unwrap_err().contains("No numeric character found in class"));
}

#[test]
fn test_extract_num_from_html_class_missing_class_attribute() {
    let html = r#"<div id="wrapper"><span></span><span class="num2"></span><span class="num3"></span></div>"#;
    let result = wrapper_spans_strict(html);
    assert!(result.is_err());
    assert!(result.unwrap_err().contains("Failed to get class"));
}

#[test]
fn test_extract_num_from_html_class_no_elements_and_bad_digit() {
    assert_eq!(wrapper_spans_strict(&spans(&[])).unwrap(), 0);
    assert_eq!(wrapper_spans_strict(&spans(&["num1", "num2", "num3", "x"])).unwrap(), 123);
    assert_eq!(wrapper_spans_strict(&spans(&["num٣", "num2", "num3"])).unwrap_err(), "Failed to parse decimal number");
}
