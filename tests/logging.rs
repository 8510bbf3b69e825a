use resilient_ai_agent::logging::{
    log_circuit_breaker_state_change, log_model_request, log_operation_failure,
    log_operation_start, log_operation_success, log_retry_attempt,
};

#[test]
fn messages_are_formatted() {
    assert_eq!(log_operation_start("gen", "prompt length: 5"), "Starting operation: gen - prompt length: 5");
    assert_eq!(log_operation_success("gen", 1234), "Operation completed successfully: gen (took 1234ms)");
    assert_eq!(log_operation_success("gen", 0), "Operation completed successfully: gen (took 0ms)");
    assert_eq!(log_operation_failure("gen", "boom"), "Operation failed: gen - Error: boom");
    assert_eq!(log_retry_attempt("gen", 2, 3), "Retry attempt 2/3 for operation: gen");
    assert_eq!(log_circuit_breaker_state_change("Closed", "Open"), "Circuit breaker state changed: Closed -> Open");
    assert_eq!(log_model_request("llama3.2:1b", 42), "Making request to model: llama3.2:1b (prompt length: 42)");
}

#[test]
fn large_numbers_are_written_in_full() {
    assert_eq!(log_operation_success("x", u64::MAX), "Operation completed successfully: x (took 18446744073709551615ms)");
    assert_eq!(log_retry_attempt("x", 10, 100), "Retry attempt 10/100 for operation: x");
}
