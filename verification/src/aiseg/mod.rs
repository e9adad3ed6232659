//! AiSEG2: pages, queries and the decisions taken while collecting from them.
pub mod pagination;
pub mod query_builder;
pub mod parser_traits;
pub mod test_helpers;
pub mod html;
pub mod climate_metric_collector;
pub mod climate_parser;
pub mod helper;
pub mod html_parsing;
pub mod metrics;
pub mod pages;
pub mod parser_adapters;
pub mod test_utils;
