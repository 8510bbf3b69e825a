use resilient_ai_agent::retry::{
    after_attempt, next_delay, with_retry, RetryConfig, RetryConfigError, RetryDecision,
};
use std::cell::{Cell, RefCell};

#[test]
fn test_retry_config_default() {
    let config = RetryConfig::default();
    assert_eq!(config.max_attempts, 3);
    assert_eq!(config.initial_delay_ms, 100);
    assert_eq!(config.max_delay_ms, 30_000);
    assert_eq!(config.backoff_multiplier, 2);
}

#[test]
fn test_with_retry_success() {
    let config = RetryConfig::default();
    let attempts = Cell::new(0u32);
    let result: Result<u32, &str> = with_retry(
        &config,
        |_attempt| {
            attempts.set(attempts.get() + 1);
            if attempts.get() < 2 {
                Err("fail")
            } else {
                Ok(42)
            }
        },
        |_| {},
    );
    assert_eq!(result.unwrap(), 42);
    assert_eq!(attempts.get(), 2);
}

#[test]
fn always_failing_operation_runs_max_attempts() {
    let config = RetryConfig::new(4, 100, 10_000, 2).unwrap();
    let attempts = Cell::new(0u32);
    let slept = RefCell::new(Vec::new());
    let result: Result<(), u32> = with_retry(
        &config,
        |_attempt| {
            attempts.set(attempts.get() + 1);
            Err(attempts.get())
        },
        |d| slept.borrow_mut().push(d),
    );
    assert_eq!(result, Err(4));
    assert_eq!(attempts.get(), 4);
    assert_eq!(*slept.borrow(), vec![100, 200, 400]);
}

#[test]
fn success_on_first_attempt_sleeps_never() {
    let config = RetryConfig::default();
    let slept = RefCell::new(Vec::new());
    let result: Result<u8, ()> = with_retry(&config, |_| Ok(1), |d| slept.borrow_mut().push(d));
    assert_eq!(result, Ok(1));
    assert!(slept.borrow().is_empty());
}

#[test]
fn delays_double_from_initial() {
    let config = RetryConfig::new(5, 100, 10_000, 2).unwrap();
    assert_eq!(next_delay(1, &config), 100);
    assert_eq!(next_delay(2, &config), 200);
    assert_eq!(next_delay(3, &config), 400);
}

#[test]
fn delays_are_capped_and_non_decreasing() {
    let config = RetryConfig::new(50, 300, 10_000, 3).unwrap();
    let delays: Vec<u64> = (1..20).map(|k| next_delay(k, &config)).collect();
    assert_eq!(&delays[..5], &[300, 900, 2_700, 8_100, 10_000]);
    assert!(delays.windows(2).all(|w| w[0] <= w[1]));
    assert!(delays.iter().all(|d| *d <= 10_000));
    let big = RetryConfig::new(2, u64::MAX, u64::MAX, u64::MAX).unwrap();
    assert_eq!(next_delay(1, &big), u64::MAX);
    assert_eq!(next_delay(70, &big), u64::MAX);
}

#[test]
fn initial_delay_above_cap_is_capped() {
    let config = RetryConfig::new(3, 5_000, 1_000, 2).unwrap();
    assert_eq!(next_delay(1, &config), 1_000);
}

#[test]
fn decision_after_each_attempt() {
    let config = RetryConfig::default();
    assert_eq!(after_attempt(&config, 1, true), RetryDecision::Finish);
    assert_eq!(after_attempt(&config, 1, false), RetryDecision::RetryAfter(100));
    assert_eq!(after_attempt(&config, 2, false), RetryDecision::RetryAfter(200));
    assert_eq!(after_attempt(&config, 3, false), RetryDecision::Finish);
}

#[test]
fn invalid_configs_are_refused() {
    assert_eq!(RetryConfig::new(0, 1, 1, 1), Err(RetryConfigError::ZeroAttempts));
    assert_eq!(RetryConfig::new(1, 0, 1, 1), Err(RetryConfigError::ZeroInitialDelay));
    assert_eq!(RetryConfig::new(1, 1, 0, 1), Err(RetryConfigError::ZeroMaxDelay));
    assert_eq!(RetryConfig::new(1, 1, 1, 0), Err(RetryConfigError::MultiplierBelowOne));
    assert!(RetryConfig::new(1, 1, 1, 1).is_ok());
}

#[test]
fn first_slept_delay_is_capped() {
    let config = RetryConfig::new(3, 5_000, 1_000, 2).unwrap();
    let slept = RefCell::new(Vec::new());
    let result: Result<(), &str> = with_retry(&config, |_| Err("x"), |d| slept.borrow_mut().push(d));
    assert_eq!(result, Err("x"));
    assert_eq!(*slept.borrow(), vec![1_000, 1_000]);
}

#[test]
fn operation_receives_attempt_numbers() {
    let config = RetryConfig::new(5, 1, 100, 1).unwrap();
    let seen = RefCell::new(Vec::new());
    let slept = RefCell::new(Vec::new());
    let result: Result<usize, ()> = with_retry(
        &config,
        |attempt| {
            seen.borrow_mut().push(attempt);
            if attempt == 3 { Ok(attempt) } else { Err(()) }
        },
        |d| slept.borrow_mut().push(d),
    );
    assert_eq!(result, Ok(3));
    assert_eq!(*seen.borrow(), vec![1, 2, 3]);
    assert_eq!(*slept.borrow(), vec![1, 1]);
}
