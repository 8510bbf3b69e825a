use resilient_ai_agent::circuit_breaker::CircuitBreakerError;
use resilient_ai_agent::client::{
    availability_result, client_breaker_config, client_retry_config, generation_result, model,
    model_listed,
};

#[test]
fn model_is_found_by_exact_name() {
    let names = vec!["mistral:7b".to_string(), "llama3.2:1b".to_string()];
    assert!(model_listed(&names, model()));
    assert!(!model_listed(&names, "llama3.2"));
    assert!(!model_listed(&Vec::new(), model()));
}

#[test]
fn generation_errors_are_mapped() {
    assert_eq!(generation_result(Ok("hi".to_string())), Ok("hi".to_string()));
    assert_eq!(
        generation_result(Err(CircuitBreakerError::CircuitOpen)),
        Err("Service temporarily unavailable due to circuit breaker".to_string())
    );
    assert_eq!(
        generation_result(Err(CircuitBreakerError::OperationFailed("x".to_string()))),
        Err("x".to_string())
    );
}

#[test]
fn availability_failures_mean_unavailable() {
    assert!(availability_result(Ok(true)));
    assert!(!availability_result(Ok(false)));
    assert!(!availability_result(Err(CircuitBreakerError::CircuitOpen)));
    assert!(!availability_result(Err(CircuitBreakerError::OperationFailed("e".to_string()))));
}

#[test]
fn client_configs() {
    let b = client_breaker_config();
    assert_eq!((b.failure_threshold, b.timeout_ms, b.success_threshold), (3, 30_000, 1));
    let r = client_retry_config();
    assert_eq!((r.max_attempts, r.initial_delay_ms, r.max_delay_ms), (3, 500, 10_000));
}
