use aiseg2_forwarder::aiseg::helper::parse_text_from_html;
use aiseg2_forwarder::aiseg::test_helpers::create_html_document;
use aiseg2_forwarder::aiseg::test_helpers::{
    create_climate_html, create_consumption_devices_html, create_generation_details_html,
    create_power_flow_html, create_title_value_html, create_value_only_html,
};
use aiseg2_forwarder::aiseg::test_utils::test_config;
use aiseg2_forwarder::test_utils::{
    test_aiseg2_config, test_aiseg2_config_with_url, test_influx_config, test_influx_config_with_url,
    ClimateHtmlBuilder, ConsumptionDevicesBuilder, GenerationDetailsBuilder, HtmlTestBuilder,
    TestAiseg2ConfigBuilder, TestInfluxConfigBuilder,
};

#[test]
fn test_create_title_value_html() {
    let html_str = create_title_value_html("太陽光発電量", "123.45");
    assert!(html_str.contains(r#"<div id="h_title">太陽光発電量</div>"#));
    assert!(html_str.contains(r#"<div id="val_kwh">123.45</div>"#));
}

#[test]
fn test_create_power_flow_html() {
    let html_str = create_power_flow_html("2.5", "3.8");
    assert!(html_str.contains(r#"<div id="g_capacity">2.5</div>"#));
    assert!(html_str.contains(r#"<div id="u_capacity">3.8</div>"#));
}

#[test]
fn test_create_generation_details_html() {
    let sources = vec![(1, "太陽光", "2.5"), (2, "燃料電池", "0.5")];
    let html_str = create_generation_details_html(&sources);
    assert!(html_str.contains(r#"<div id="g_d_1_title"><span>太陽光</span></div>"#));
    assert!(html_str.contains(r#"<div id="g_d_1_capacity"><span>2.5</span></div>"#));
    assert!(html_str.contains(r#"<div id="g_d_2_title"><span>燃料電池</span></div>"#));
    assert!(html_str.contains(r#"<div id="g_d_2_capacity"><span>0.5</span></div>"#));
}

#[test]
fn test_create_consumption_devices_html() {
    let devices = vec![(1, "エアコン", "1.2"), (2, "冷蔵庫", "0.5")];
    let html_str = create_consumption_devices_html(&devices);
    assert!(html_str.contains(r#"<div class="c_device"><span>エアコン</span></div>"#));
    assert!(html_str.contains(r#"<div class="c_value"><span>1.2</span></div>"#));
}

#[test]
fn test_create_climate_html() {
    let locations = vec![("リビング", "235", "650")];
    let html_str = create_climate_html(locations);
    assert!(html_str.contains(r#"<div class="txt_name">リビング</div>"#));
    assert!(html_str.contains(r#"class="num no2""#));
    assert!(html_str.contains(r#"class="num no6""#));
}

#[test]
fn test_create_value_only_html_wraps_value() {
    let html_str = create_value_only_html("42");
    assert!(html_str.contains(r#"<div id="val_kwh">42</div>"#));
    assert!(!html_str.contains("h_title"));
}

#[test]
fn test_html_test_builder() {
    let html = HtmlTestBuilder::new()
        .add_element("test_id", "test_value")
        .add_element("another_id", "another_value")
        .build();
    assert!(html.contains(r#"<div id="test_id">test_value</div>"#));
    assert!(html.contains(r#"<div id="another_id">another_value</div>"#));
    assert!(html.starts_with("<html><body>"));
    assert!(html.ends_with("</body></html>"));
}

#[test]
fn test_html_test_builder_with_custom_wrapper() {
    let html = HtmlTestBuilder::new().with_wrapper("div").add_element("test", "value").build();
    assert!(html.contains("<html><div>"));
    assert!(html.contains("</div></html>"));
}

#[test]
fn test_html_test_builder_with_class() {
    let html = HtmlTestBuilder::new().add_element_with_class("a", "big", "1").build();
    assert!(html.contains(r#"<div id="a" class="big">1</div>"#));
}

#[test]
fn test_generation_details_builder() {
    let html = GenerationDetailsBuilder::new()
        .add_source(1, "太陽光", "2.5")
        .add_source(2, "燃料電池", "0.5")
        .build();
    assert!(html.contains(r#"<div id="g_d_1_title"><span>太陽光</span></div>"#));
    assert!(html.contains(r#"<div id="g_d_1_capacity"><span>2.5</span></div>"#));
    assert!(html.contains(r#"<div id="g_d_2_title"><span>燃料電池</span></div>"#));
    assert!(html.contains(r#"<div id="g_d_2_capacity"><span>0.5</span></div>"#));
}

#[test]
fn test_consumption_devices_builder() {
    let html = ConsumptionDevicesBuilder::new()
        .add_device(1, "エアコン", "1.2")
        .add_device(2, "冷蔵庫", "0.5")
        .build();
    assert!(html.contains(r#"<div class="c_device"><span>エアコン</span></div>"#));
    assert!(html.contains(r#"<div class="c_value"><span>1.2</span></div>"#));
    assert!(html.contains(r#"<div id="stage_1">"#));
    assert!(html.contains(r#"<div id="stage_2">"#));
}

#[test]
fn test_climate_html_builder() {
    let html = ClimateHtmlBuilder::new().add_location("リビング", "235", "650").build();
    assert!(html.contains(r#"<div class="txt_name">リビング</div>"#));
    assert!(html.contains(r#"class="num no2""#));
    assert!(html.contains(r#"class="num no6""#));
}

#[test]
fn test_aiseg2_config_builder() {
    let config = TestAiseg2ConfigBuilder::new()
        .with_url("http://custom.local")
        .with_user("custom_user")
        .with_password("custom_pass")
        .build();
    assert_eq!(config.url, "http://custom.local");
    assert_eq!(config.user, "custom_user");
    assert_eq!(config.password, "custom_pass");
}

#[test]
fn test_influx_config_builder() {
    let config = TestInfluxConfigBuilder::new()
        .with_url("http://influx.local")
        .with_org("my-org")
        .with_token("my-token")
        .with_bucket("my-bucket")
        .build();
    assert_eq!(config.url, "http://influx.local");
    assert_eq!(config.org, "my-org");
    assert_eq!(config.token, "my-token");
    assert_eq!(config.bucket, "my-bucket");
}

#[test]
fn test_convenience_functions() {
    let aiseg_config = test_aiseg2_config();
    assert_eq!(aiseg_config.url, "http://test.local");
    let aiseg_config_with_url = test_aiseg2_config_with_url("http://mock.local");
    assert_eq!(aiseg_config_with_url.url, "http://mock.local");
    let influx_config = test_influx_config();
    assert_eq!(influx_config.url, "http://localhost:8086");
    let influx_config_with_url = test_influx_config_with_url("http://mock:8086");
    assert_eq!(influx_config_with_url.url, "http://mock:8086");
}

#[test]
fn test_aiseg_test_config_credentials() {
    let config = test_config("http://127.0.0.1:1234".to_string());
    assert_eq!(config.url, "http://127.0.0.1:1234");
    assert_eq!(config.user, "test_user");
    assert_eq!(config.password, "test_password");
}

#[test]
fn test_create_html_document() {
    let html = create_html_document("<div>Test</div>");
    let text = parse_text_from_html(&html, "div").unwrap();
    assert!(text.contains("Test"));
}
