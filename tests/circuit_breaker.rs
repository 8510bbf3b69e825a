use std::cell::Cell;

use resilient_ai_agent::circuit_breaker::{
    CircuitBreaker, CircuitBreakerConfig, CircuitBreakerConfigError, CircuitBreakerError,
    CircuitState,
};

fn config(threshold: usize, timeout_ms: u64) -> CircuitBreakerConfig {
    CircuitBreakerConfig { failure_threshold: threshold, timeout_ms, success_threshold: 1 }
}

#[test]
fn test_circuit_breaker_config_default() {
    let config = CircuitBreakerConfig::default();
    assert_eq!(config.failure_threshold, 5);
    assert_eq!(config.timeout_ms, 60_000);
    assert_eq!(config.success_threshold, 2);
}

#[test]
fn test_circuit_breaker_initial_state() {
    let config = CircuitBreakerConfig::default();
    let breaker = CircuitBreaker::new(config);
    let state = breaker.get_state();
    assert_eq!(state, CircuitState::Closed);
    assert_eq!(breaker.failure_count(), 0);
    assert_eq!(breaker.last_failure_ms(), None);
}

#[test]
fn three_failures_open_and_fourth_call_is_rejected() {
    let mut b = CircuitBreaker::new(config(3, 1_000));
    for (i, t) in [10u64, 20, 30].iter().enumerate() {
        assert!(b.try_enter(*t));
        b.on_failure(*t);
        assert_eq!(b.failure_count(), i + 1);
    }
    assert_eq!(b.get_state(), CircuitState::Open);
    assert_eq!(b.last_failure_ms(), Some(30));
    assert!(!b.try_enter(500));
    assert_eq!(b.get_state(), CircuitState::Open);
    assert_eq!(b.failure_count(), 3);
    assert_eq!(b.last_failure_ms(), Some(30));
}

#[test]
fn two_failures_keep_breaker_closed() {
    let mut b = CircuitBreaker::new(config(3, 1_000));
    b.on_failure(1);
    b.on_failure(2);
    assert_eq!(b.get_state(), CircuitState::Closed);
    assert_eq!(b.failure_count(), 2);
    b.on_success();
    assert_eq!(b.failure_count(), 0);
    assert_eq!(b.get_state(), CircuitState::Closed);
}

#[test]
fn repeated_rejections_change_nothing() {
    let mut b = CircuitBreaker::new(config(1, 1_000));
    b.on_failure(100);
    for now in [100u64, 200, 500, 1_099] {
        assert!(!b.try_enter(now));
        assert_eq!(b.failure_count(), 1);
        assert_eq!(b.last_failure_ms(), Some(100));
        assert_eq!(b.get_state(), CircuitState::Open);
    }
}

#[test]
fn successful_trial_closes_breaker() {
    let mut b = CircuitBreaker::new(config(2, 1_000));
    b.on_failure(0);
    b.on_failure(5);
    assert_eq!(b.get_state(), CircuitState::Open);
    assert!(b.try_enter(1_005));
    assert_eq!(b.get_state(), CircuitState::HalfOpen);
    b.on_success();
    assert_eq!(b.get_state(), CircuitState::Closed);
    assert_eq!(b.failure_count(), 0);
    assert_eq!(b.last_failure_ms(), None);
}

#[test]
fn failed_trial_reopens_and_restarts_timer() {
    let mut b = CircuitBreaker::new(config(1, 1_000));
    b.on_failure(0);
    assert!(b.try_enter(1_000));
    b.on_failure(1_200);
    assert_eq!(b.get_state(), CircuitState::Open);
    assert_eq!(b.last_failure_ms(), Some(1_200));
    assert!(!b.try_enter(2_199));
    assert!(b.try_enter(2_200));
    assert_eq!(b.get_state(), CircuitState::HalfOpen);
}

#[test]
fn concurrent_arrivals_get_a_single_trial() {
    let mut b = CircuitBreaker::new(config(1, 50));
    b.on_failure(0);
    let admitted = (0..10).filter(|_| b.try_enter(50)).count();
    assert_eq!(admitted, 1);
    assert_eq!(b.get_state(), CircuitState::HalfOpen);
    assert!(!b.try_enter(10_000));
}

#[test]
fn complete_records_outcome_and_maps_error() {
    let mut b = CircuitBreaker::new(config(1, 50));
    let ok: Result<u32, CircuitBreakerError> = b.complete(Ok(7), 1);
    assert_eq!(ok, Ok(7));
    let err: Result<u32, CircuitBreakerError> = b.complete(Err("boom".to_string()), 2);
    assert_eq!(err, Err(CircuitBreakerError::OperationFailed("boom".to_string())));
    assert_eq!(b.get_state(), CircuitState::Open);
    assert_eq!(b.last_failure_ms(), Some(2));
}

#[test]
fn clock_running_backwards_counts_as_no_time() {
    let mut b = CircuitBreaker::new(config(1, 0));
    b.on_failure(100);
    assert!(b.try_enter(5));
    assert_eq!(b.get_state(), CircuitState::HalfOpen);
}

#[test]
fn error_messages() {
    assert_eq!(CircuitBreakerError::CircuitOpen.message(), "Circuit breaker is open");
    assert_eq!(
        CircuitBreakerError::OperationFailed("timeout".to_string()).message(),
        "Operation failed: timeout"
    );
}

#[test]
fn call_runs_or_rejects_without_running() {
    let now = Cell::new(0u64);
    let runs = Cell::new(0u32);
    let clock = || now.get();
    let mut b = CircuitBreaker::new(config(2, 100));
    for _ in 0..2 {
        let r: Result<u32, CircuitBreakerError> = b.call(&clock, || {
            runs.set(runs.get() + 1);
            Err("down".to_string())
        });
        assert_eq!(r, Err(CircuitBreakerError::OperationFailed("down".to_string())));
    }
    assert_eq!(b.get_state(), CircuitState::Open);
    now.set(50);
    let r: Result<u32, CircuitBreakerError> = b.call(&clock, || {
        runs.set(runs.get() + 1);
        Ok(1)
    });
    assert_eq!(r, Err(CircuitBreakerError::CircuitOpen));
    assert_eq!(runs.get(), 2);
    assert_eq!(b.failure_count(), 2);
    now.set(100);
    let r: Result<u32, CircuitBreakerError> = b.call(&clock, || {
        runs.set(runs.get() + 1);
        Ok(9)
    });
    assert_eq!(r, Ok(9));
    assert_eq!(runs.get(), 3);
    assert_eq!(b.get_state(), CircuitState::Closed);
    assert_eq!(b.failure_count(), 0);
}

#[test]
fn invalid_breaker_configs_are_refused() {
    assert_eq!(CircuitBreakerConfig::new(0, 10, 1), Err(CircuitBreakerConfigError::ZeroFailureThreshold));
    assert_eq!(CircuitBreakerConfig::new(3, 0, 1), Err(CircuitBreakerConfigError::ZeroTimeout));
    assert_eq!(
        CircuitBreakerConfig::new(3, 30_000, 1),
        Ok(CircuitBreakerConfig { failure_threshold: 3, timeout_ms: 30_000, success_threshold: 1 })
    );
}
