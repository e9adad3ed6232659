use aiseg2_forwarder::circuit_breaker::{CircuitBreaker, CircuitBreakerConfig, CircuitState};
use aiseg2_forwarder::collector::CircuitProtectedCollector;
use aiseg2_forwarder::config;

fn config_with(failure_threshold: u32) -> CircuitBreakerConfig {
    CircuitBreakerConfig { failure_threshold, ..Default::default() }
}

#[test]
fn test_default_config() {
    let c = CircuitBreakerConfig::default();
    assert_eq!(c.failure_threshold, 5);
    assert_eq!(c.recovery_timeout, 60_000);
    assert_eq!(c.half_open_success_threshold, 3);
    assert_eq!(c.half_open_failure_threshold, 1);
}

#[test]
fn test_circuit_breaker_opens_after_threshold() {
    let mut breaker = CircuitBreaker::new("test".to_string(), config_with(3));
    assert!(breaker.call_allowed(0));
    assert!(!breaker.is_open());
    for i in 1..=3 {
        breaker.record_failure(10);
        if i < 3 {
            assert!(breaker.call_allowed(10));
            assert!(!breaker.is_open());
        }
    }
    assert!(!breaker.call_allowed(11));
    assert!(breaker.is_open());
    assert_eq!(breaker.state(), CircuitState::Open { opened_at: 10 });
}

#[test]
fn test_circuit_breaker_closes_on_success() {
    let config = CircuitBreakerConfig { failure_threshold: 2, half_open_success_threshold: 2, ..Default::default() };
    let mut breaker = CircuitBreaker::new("test".to_string(), config);
    breaker.record_failure(0);
    breaker.record_failure(0);
    assert!(breaker.is_open());
    assert!(breaker.call_allowed(60_000));
    assert_eq!(breaker.state(), CircuitState::HalfOpen { success_count: 0, failure_count: 0 });
    breaker.record_success();
    assert!(breaker.call_allowed(60_001));
    breaker.record_success();
    assert!(!breaker.is_open());
    assert_eq!(breaker.state(), CircuitState::Closed { failure_count: 0 });
}

#[test]
fn test_circuit_breaker_reopens_from_half_open() {
    let config = CircuitBreakerConfig { failure_threshold: 2, half_open_failure_threshold: 1, ..Default::default() };
    let mut breaker = CircuitBreaker::new("test".to_string(), config);
    breaker.record_failure(0);
    breaker.record_failure(0);
    assert!(breaker.is_open());
    assert!(breaker.call_allowed(60_000));
    breaker.record_failure(60_500);
    assert!(breaker.is_open());
    assert_eq!(breaker.state(), CircuitState::Open { opened_at: 60_500 });
}

#[test]
fn test_circuit_breaker_recovery_timeout() {
    let config = CircuitBreakerConfig { failure_threshold: 1, recovery_timeout: 50, ..Default::default() };
    let mut breaker = CircuitBreaker::new("test".to_string(), config);
    breaker.record_failure(1_000);
    assert!(breaker.is_open());
    assert!(!breaker.call_allowed(1_049));
    assert!(breaker.call_allowed(1_060));
    assert!(!breaker.is_open());
}

#[test]
fn test_success_resets_failure_count() {
    let mut breaker = CircuitBreaker::new("test".to_string(), config_with(3));
    breaker.record_failure(0);
    breaker.record_failure(0);
    breaker.record_success();
    breaker.record_failure(0);
    breaker.record_failure(0);
    assert!(!breaker.is_open());
    breaker.record_failure(0);
    assert!(breaker.is_open());
}

#[test]
fn test_open_circuit_ignores_outcomes() {
    let mut breaker = CircuitBreaker::new("test".to_string(), config_with(1));
    breaker.record_failure(5);
    breaker.record_success();
    breaker.record_failure(9);
    assert_eq!(breaker.state(), CircuitState::Open { opened_at: 5 });
}

#[test]
fn test_clock_going_back_keeps_circuit_open() {
    let config = CircuitBreakerConfig { failure_threshold: 1, recovery_timeout: 10, ..Default::default() };
    let mut breaker = CircuitBreaker::new("test".to_string(), config);
    breaker.record_failure(100);
    assert!(!breaker.call_allowed(50));
    assert!(breaker.is_open());
}

#[test]
fn test_half_open_needs_all_successes() {
    let config = CircuitBreakerConfig {
        failure_threshold: 1,
        recovery_timeout: 0,
        half_open_success_threshold: 3,
        half_open_failure_threshold: 2,
    };
    let mut breaker = CircuitBreaker::new("b".to_string(), config);
    breaker.record_failure(0);
    assert!(breaker.call_allowed(0));
    breaker.record_success();
    breaker.record_failure(1);
    assert_eq!(breaker.state(), CircuitState::HalfOpen { success_count: 1, failure_count: 1 });
    breaker.record_failure(2);
    assert_eq!(breaker.state(), CircuitState::Open { opened_at: 2 });
}

#[test]
fn test_breaker_keeps_name_and_config() {
    let breaker = CircuitBreaker::new("Power".to_string(), config_with(4));
    assert_eq!(breaker.name(), "Power");
    assert_eq!(breaker.config().failure_threshold, 4);
}

#[test]
fn test_config_seconds_to_milliseconds() {
    let c = config::CircuitBreakerConfig {
        failure_threshold: 2,
        recovery_timeout_seconds: 30,
        half_open_success_threshold: 4,
        half_open_failure_threshold: 1,
    };
    let b = c.to_breaker_config();
    assert_eq!(b.failure_threshold, 2);
    assert_eq!(b.recovery_timeout, 30_000);
    assert_eq!(b.half_open_success_threshold, 4);
    assert_eq!(b.half_open_failure_threshold, 1);
    let huge = config::CircuitBreakerConfig { recovery_timeout_seconds: u64::MAX, ..c };
    assert_eq!(huge.to_breaker_config().recovery_timeout, u64::MAX);
}

#[test]
fn test_circuit_protected_collector_success() {
    let breaker = CircuitBreaker::new("c".to_string(), config_with(3));
    let mut collector = CircuitProtectedCollector::new("c".to_string(), (), breaker);
    assert!(collector.begin_collect(0));
    let points = collector.finish_collect::<u32, String>(Ok(vec![1, 2]), 0);
    assert_eq!(points, vec![1, 2]);
    assert!(!collector.circuit_breaker().is_open());
}

#[test]
fn test_circuit_protected_collector_opens_on_failures() {
    let breaker = CircuitBreaker::new("c".to_string(), config_with(2));
    let mut collector = CircuitProtectedCollector::new("c".to_string(), (), breaker);
    for t in 0..2u64 {
        assert!(collector.begin_collect(t));
        let points = collector.finish_collect::<u32, String>(Err("down".to_string()), t);
        assert!(points.is_empty());
    }
    assert!(collector.circuit_breaker().is_open());
    assert!(!collector.begin_collect(2));
}

#[test]
fn test_circuit_protected_collector_recovery() {
    let config = CircuitBreakerConfig {
        failure_threshold: 1,
        recovery_timeout: 100,
        half_open_success_threshold: 1,
        half_open_failure_threshold: 1,
    };
    let mut collector =
        CircuitProtectedCollector::new("c".to_string(), (), CircuitBreaker::new("c".to_string(), config));
    assert!(collector.begin_collect(0));
    collector.finish_collect::<u32, String>(Err("x".to_string()), 0);
    assert!(!collector.begin_collect(50));
    assert!(collector.begin_collect(150));
    let points = collector.finish_collect::<u32, String>(Ok(vec![7]), 150);
    assert_eq!(points, vec![7]);
    assert_eq!(collector.circuit_breaker().state(), CircuitState::Closed { failure_count: 0 });
    assert_eq!(collector.name(), "c");
}
