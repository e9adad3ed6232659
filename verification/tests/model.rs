use aiseg2_forwarder::model::merge::merge_power_breakdown_metrics;
use aiseg2_forwarder::model::{
    merge_same_name_power_status_breakdown_metrics, ClimateStatusMetricCategory, Measurement,
    PowerStatusBreakdownMetric, PowerStatusBreakdownMetricCategory, Unit,
};
use aiseg2_forwarder::model::types::with_unit;
use aiseg2_forwarder::model::points::{climate_point_parts, total_point_parts};

fn metric(category: PowerStatusBreakdownMetricCategory, name: &str, value: i64) -> PowerStatusBreakdownMetric {
    PowerStatusBreakdownMetric { measurement: Measurement::Power, category, name: name.to_string(), value }
}

fn check_measurement_display() {
    assert_eq!(Measurement::Power.to_string(), "power");
    assert_eq!(Measurement::DailyTotal.to_string(), "daily_total");
    assert_eq!(Measurement::CircuitDailyTotal.to_string(), "circuit_daily_total");
    assert_eq!(Measurement::Climate.to_string(), "climate");
}

fn check_breakdown_category_display() {
    assert_eq!(PowerStatusBreakdownMetricCategory::Generation.to_string(), "generation");
    assert_eq!(PowerStatusBreakdownMetricCategory::Consumption.to_string(), "consumption");
}

fn check_climate_category_display() {
    assert_eq!(ClimateStatusMetricCategory::Temperature.to_string(), "temperature");
    assert_eq!(ClimateStatusMetricCategory::Humidity.to_string(), "humidity");
}

fn check_unit_display() {
    assert_eq!(Unit::Watt.to_string(), "W");
    assert_eq!(Unit::Kwh.to_string(), "kWh");
    assert_eq!(Unit::Liter.to_string(), "L");
    assert_eq!(Unit::CubicMeter.to_string(), "㎥");
}

#[test]
fn model_test_measurement_display() {
    check_measurement_display();
}

#[test]
fn model_test_power_status_breakdown_metric_category_display() {
    check_breakdown_category_display();
}

#[test]
fn model_test_climate_status_metric_category_display() {
    check_climate_category_display();
}

#[test]
fn model_test_unit_display() {
    check_unit_display();
}

#[test]
fn mod_test_measurement_display() {
    check_measurement_display();
}

#[test]
fn mod_test_power_status_breakdown_metric_category_display() {
    check_breakdown_category_display();
}

#[test]
fn mod_test_climate_status_metric_category_display() {
    check_climate_category_display();
}

#[test]
fn mod_test_unit_display() {
    check_unit_display();
}

#[test]
fn test_with_unit_appends_symbol() {
    assert_eq!(with_unit("発電量", Unit::Kwh), "発電量(kWh)");
    assert_eq!(with_unit("ガス", Unit::CubicMeter), "ガス(㎥)");
}

#[test]
fn test_merge_same_name_power_status_breakdown_metrics_empty() {
    let metrics = vec![];
    let result = merge_same_name_power_status_breakdown_metrics(metrics);
    assert_eq!(result.len(), 0);
}

#[test]
fn test_merge_same_name_power_status_breakdown_metrics_single() {
    let metrics = vec![metric(PowerStatusBreakdownMetricCategory::Generation, "solar", 100)];
    let result = merge_same_name_power_status_breakdown_metrics(metrics);
    assert_eq!(result.len(), 1);
    assert_eq!(result[0].value, 100);
    assert_eq!(result[0].name, "solar");
}

#[test]
fn test_merge_same_name_power_status_breakdown_metrics_same_key() {
    let metrics = vec![
        metric(PowerStatusBreakdownMetricCategory::Generation, "solar", 100),
        metric(PowerStatusBreakdownMetricCategory::Generation, "solar", 200),
        metric(PowerStatusBreakdownMetricCategory::Generation, "solar", 50),
    ];
    let result = merge_same_name_power_status_breakdown_metrics(metrics);
    assert_eq!(result.len(), 1);
    assert_eq!(result[0].value, 350);
    assert_eq!(result[0].name, "solar");
}

#[test]
fn test_merge_same_name_power_status_breakdown_metrics_different_keys() {
    let metrics = vec![
        metric(PowerStatusBreakdownMetricCategory::Generation, "solar", 100),
        metric(PowerStatusBreakdownMetricCategory::Consumption, "solar", 50),
        metric(PowerStatusBreakdownMetricCategory::Generation, "wind", 200),
    ];
    let result = merge_same_name_power_status_breakdown_metrics(metrics);
    assert_eq!(result.len(), 3);
}

#[test]
fn test_merge_same_name_power_status_breakdown_metrics_mixed() {
    let metrics = vec![
        metric(PowerStatusBreakdownMetricCategory::Generation, "solar", 100),
        metric(PowerStatusBreakdownMetricCategory::Generation, "solar", 150),
        metric(PowerStatusBreakdownMetricCategory::Consumption, "appliances", 300),
        metric(PowerStatusBreakdownMetricCategory::Consumption, "appliances", 200),
    ];
    let result = merge_same_name_power_status_breakdown_metrics(metrics);
    assert_eq!(result.len(), 2);
    let solar_result = result.iter().find(|m| m.name == "solar").unwrap();
    assert_eq!(solar_result.value, 250);
    let appliances_result = result.iter().find(|m| m.name == "appliances").unwrap();
    assert_eq!(appliances_result.value, 500);
}

#[test]
fn test_merge_power_breakdown_metrics() {
    let metrics = vec![
        metric(PowerStatusBreakdownMetricCategory::Consumption, "エアコン(W)", 100),
        metric(PowerStatusBreakdownMetricCategory::Consumption, "エアコン(W)", 200),
        metric(PowerStatusBreakdownMetricCategory::Consumption, "冷蔵庫(W)", 50),
    ];
    let merged = merge_power_breakdown_metrics(metrics);
    assert_eq!(merged.len(), 2);
    let aircon = merged.iter().find(|m| m.name.contains("エアコン")).unwrap();
    assert_eq!(aircon.value, 300);
    let fridge = merged.iter().find(|m| m.name.contains("冷蔵庫")).unwrap();
    assert_eq!(fridge.value, 50);
}

#[test]
fn test_merge_by_name_keeps_first_category_and_order() {
    let metrics = vec![
        metric(PowerStatusBreakdownMetricCategory::Generation, "a", 1),
        metric(PowerStatusBreakdownMetricCategory::Consumption, "b", 2),
        metric(PowerStatusBreakdownMetricCategory::Consumption, "a", 3),
    ];
    let merged = merge_power_breakdown_metrics(metrics);
    assert_eq!(merged.len(), 2);
    assert_eq!(merged[0].name, "a");
    assert_eq!(merged[0].category, PowerStatusBreakdownMetricCategory::Generation);
    assert_eq!(merged[0].value, 4);
    assert_eq!(merged[1].name, "b");
    assert_eq!(merged[1].value, 2);
}

#[test]
fn test_merge_of_distinct_names_keeps_length() {
    let metrics = vec![
        metric(PowerStatusBreakdownMetricCategory::Consumption, "x", -5),
        metric(PowerStatusBreakdownMetricCategory::Consumption, "y", 7),
        metric(PowerStatusBreakdownMetricCategory::Consumption, "z", 0),
    ];
    let merged = merge_power_breakdown_metrics(metrics.clone());
    assert_eq!(merged, metrics);
}

#[test]
fn test_point_parts_of_metrics() {
    let summary = aiseg2_forwarder::model::PowerStatusMetric {
        measurement: Measurement::Power,
        name: "総発電電力(W)".to_string(),
        value: 1000,
    };
    let parts = summary.point_parts();
    assert_eq!(parts.measurement, "power");
    assert_eq!(parts.tags, vec![("summary".to_string(), "総発電電力(W)".to_string())]);
    let detail = metric(PowerStatusBreakdownMetricCategory::Generation, "solar_power", 2500);
    let parts = detail.point_parts();
    assert_eq!(parts.measurement, "power");
    assert_eq!(
        parts.tags,
        vec![
            ("detail-type".to_string(), "generation".to_string()),
            ("detail-section".to_string(), "solar_power".to_string())
        ]
    );
    let total = total_point_parts(Measurement::DailyTotal, "daily_consumption");
    assert_eq!(total.measurement, "daily_total");
    assert_eq!(total.tags, vec![("detail-section".to_string(), "daily_consumption".to_string())]);
    let climate = climate_point_parts(Measurement::Climate, ClimateStatusMetricCategory::Temperature, "living_room");
    assert_eq!(climate.measurement, "climate");
    assert_eq!(
        climate.tags,
        vec![
            ("detail-type".to_string(), "temperature".to_string()),
            ("detail-section".to_string(), "living_room".to_string())
        ]
    );
}
