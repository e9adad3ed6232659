pub mod circuit_breaker;
pub mod collector;
pub mod model;
pub mod text;
pub mod error;
pub mod aiseg;
pub mod config;
pub mod test_utils;
