use aiseg2_forwarder::aiseg::metrics::{create_climate_readings, ClimateReading};
use aiseg2_forwarder::aiseg::pagination::{PageCollection, PageItem, PaginationConfig, PaginatorBuilder};
use aiseg2_forwarder::collector::backfill_day_offsets;
use aiseg2_forwarder::error::{AisegError, ParseError};
use aiseg2_forwarder::model::{Measurement, PowerStatusBreakdownMetric, PowerStatusBreakdownMetricCategory};

fn item(name: &str, value: i64) -> PowerStatusBreakdownMetric {
    PowerStatusBreakdownMetric {
        measurement: Measurement::Power,
        category: PowerStatusBreakdownMetricCategory::Consumption,
        name: name.to_string(),
        value,
    }
}

/// Runs a collection over the given pages, as the collectors do, and counts the fetches.
fn run(config: PaginationConfig, pages: &[Result<Vec<PowerStatusBreakdownMetric>, String>]) -> (Vec<PowerStatusBreakdownMetric>, usize) {
    let mut collection = PageCollection::new(config);
    let mut fetched = 0;
    while let Some(page) = collection.next_page() {
        fetched += 1;
        collection.accept_page(pages[page - 1].clone());
    }
    (collection.into_items(), fetched)
}

#[test]
fn test_pagination_config_default() {
    let config = PaginationConfig::default();
    assert_eq!(config.max_pages, 20);
    assert_eq!(config.start_page, 1);
}

#[test]
fn test_paginator_collects_all_pages() {
    let pages = vec![
        Ok(vec![item("Item 1", 1), item("Item 2", 2)]),
        Ok(vec![item("Item 3", 3), item("Item 4", 4)]),
        Ok(vec![item("Item 5", 5)]),
    ];
    let (result, fetched) = run(PaginationConfig { max_pages: 3, start_page: 1 }, &pages);
    assert_eq!(result.len(), 5);
    assert_eq!(result[0].name, "Item 1");
    assert_eq!(result[4].name, "Item 5");
    assert_eq!(fetched, 3);
}

#[test]
fn test_paginator_stops_on_empty_page() {
    let pages = vec![Ok(vec![item("Item 1", 1), item("Item 2", 2)]), Ok(vec![]), Ok(vec![item("Item 3", 3)])];
    let (result, fetched) = run(PaginationConfig { max_pages: 3, start_page: 1 }, &pages);
    assert_eq!(result.len(), 2);
    assert_eq!(fetched, 2);
}

#[test]
fn test_paginator_stops_on_duplicate_page() {
    let pages = vec![
        Ok(vec![item("Item 1", 1), item("Item 2", 2)]),
        Ok(vec![item("Item 3", 3), item("Item 4", 4)]),
        Ok(vec![item("Item 3", 30), item("Item 4", 40)]),
    ];
    let (result, fetched) = run(PaginationConfig { max_pages: 3, start_page: 1 }, &pages);
    assert_eq!(result.len(), 4);
    assert_eq!(fetched, 3);
}

#[test]
fn test_pagination_stops_on_parse_error() {
    let pages = vec![Ok(vec![item("a", 1)]), Err("bad page".to_string()), Ok(vec![item("c", 3)])];
    let (result, fetched) = run(PaginationConfig { max_pages: 3, start_page: 1 }, &pages);
    assert_eq!(result, vec![item("a", 1)]);
    assert_eq!(fetched, 2);
}

#[test]
fn test_pagination_respects_start_and_max() {
    let pages: Vec<Result<Vec<PowerStatusBreakdownMetric>, String>> =
        (1..=6).map(|i| Ok(vec![item(&format!("p{}", i), i)])).collect();
    let (result, fetched) = run(PaginationConfig { max_pages: 4, start_page: 2 }, &pages);
    assert_eq!(fetched, 4);
    assert_eq!(result.iter().map(|m| m.value).collect::<Vec<_>>(), vec![2, 3, 4, 5]);
    let (result, fetched) = run(PaginationConfig { max_pages: 2, start_page: 3 }, &pages);
    assert_eq!(fetched, 2);
    assert_eq!(result.iter().map(|m| m.value).collect::<Vec<_>>(), vec![3, 4]);
    let (result, fetched) = run(PaginationConfig { max_pages: 0, start_page: 1 }, &pages);
    assert_eq!((result.len(), fetched), (0, 0));
}

#[test]
fn test_same_names_in_other_order_continue() {
    let pages = vec![
        Ok(vec![item("a", 1), item("b", 2)]),
        Ok(vec![item("b", 3), item("a", 4)]),
        Ok(vec![item("b", 5), item("a", 6)]),
    ];
    let (result, fetched) = run(PaginationConfig { max_pages: 3, start_page: 1 }, &pages);
    assert_eq!(result.len(), 4);
    assert_eq!(fetched, 3);
}

#[test]
fn test_climate_reading_key() {
    let readings: Vec<ClimateReading> = create_climate_readings("リビング".to_string(), 235, 650);
    assert_eq!(readings[0].dedup_key(), "リビング-temperature");
    assert_eq!(readings[1].dedup_key(), "リビング-humidity");
    assert_eq!(readings[0].tenths, 235);
    assert_eq!(readings[1].tenths, 650);
    assert_eq!(item("冷蔵庫(W)", 5).dedup_key(), "冷蔵庫(W)");
}

#[test]
fn test_builder_requires_both_functions() {
    let no_fetch = PaginatorBuilder::<fn(usize) -> usize, fn(usize) -> usize>::new().build();
    match no_fetch {
        Err(AisegError::Parse(ParseError::UnexpectedStructure(m))) => assert_eq!(m, "Fetch function not set"),
        _ => panic!("expected an error"),
    }
    let no_parse = PaginatorBuilder::<fn(usize) -> usize, fn(usize) -> usize>::new()
        .fetch_with(|p| p)
        .build();
    match no_parse {
        Err(AisegError::Parse(ParseError::UnexpectedStructure(m))) => assert_eq!(m, "Parse function not set"),
        _ => panic!("expected an error"),
    }
    let built = PaginatorBuilder::<fn(usize) -> usize, fn(usize) -> usize>::new()
        .max_pages(7)
        .start_page(3)
        .fetch_with(|p| p + 1)
        .parse_with(|p| p * 2)
        .build();
    let paginator = built.ok().unwrap();
    assert_eq!(paginator.config(), PaginationConfig { max_pages: 7, start_page: 3 });
    assert_eq!((paginator.fetch_fn())(1), 2);
    assert_eq!((paginator.parse_fn())(4), 8);
    let collection = paginator.start::<PowerStatusBreakdownMetric>();
    assert_eq!(collection.next_page(), Some(3));
}

#[test]
fn test_backfill_days_oldest_first() {
    assert_eq!(backfill_day_offsets(3), vec![3, 2, 1]);
    assert_eq!(backfill_day_offsets(0), Vec::<u64>::new());
    assert_eq!(backfill_day_offsets(30).len(), 30);
}
