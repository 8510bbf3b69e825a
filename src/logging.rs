use vstd::prelude::*;
use vstd::string::*;

use crate::text::{decimal, decimal_string};

verus! {

/// The message for the start of an operation:
/// `Starting operation: <operation> - <details>`.
pub fn log_operation_start(operation: &str, details: &str) -> (r: String)
    ensures
        r@ == "Starting operation: "@ + operation@ + " - "@ + details@,
{
    let mut m = String::from_str("Starting operation: ");
    m.append(operation);
    m.append(" - ");
    m.append(details);
    m
}

/// The message for an operation that completed:
/// `Operation completed successfully: <operation> (took <duration_ms>ms)`.
pub fn log_operation_success(operation: &str, duration_ms: u64) -> (r: String)
    ensures
        r@ == "Operation completed successfully: "@ + operation@ + " (took "@ + decimal(
            duration_ms as nat,
        ) + "ms)"@,
{
    let mut m = String::from_str("Operation completed successfully: ");
    m.append(operation);
    m.append(" (took ");
    let d = decimal_string(duration_ms);
    m.append(d.as_str());
    m.append("ms)");
    m
}

/// The message for an operation that failed:
/// `Operation failed: <operation> - Error: <error>`.
pub fn log_operation_failure(operation: &str, error: &str) -> (r: String)
    ensures
        r@ == "Operation failed: "@ + operation@ + " - Error: "@ + error@,
{
    let mut m = String::from_str("Operation failed: ");
    m.append(operation);
    m.append(" - Error: ");
    m.append(error);
    m
}

/// The message for a retry: `Retry attempt <attempt>/<max_attempts> for operation: <operation>`.
pub fn log_retry_attempt(operation: &str, attempt: usize, max_attempts: usize) -> (r: String)
    ensures
        r@ == "Retry attempt "@ + decimal(attempt as nat) + "/"@ + decimal(max_attempts as nat)
            + " for operation: "@ + operation@,
{
    let mut m = String::from_str("Retry attempt ");
    let a = decimal_string(attempt as u64);
    m.append(a.as_str());
    m.append("/");
    let b = decimal_string(max_attempts as u64);
    m.append(b.as_str());
    m.append(" for operation: ");
    m.append(operation);
    m
}

/// The message for a breaker transition:
/// `Circuit breaker state changed: <old_state> -> <new_state>`.
pub fn log_circuit_breaker_state_change(old_state: &str, new_state: &str) -> (r: String)
    ensures
        r@ == "Circuit breaker state changed: "@ + old_state@ + " -> "@ + new_state@,
{
    let mut m = String::from_str("Circuit breaker state changed: ");
    m.append(old_state);
    m.append(" -> ");
    m.append(new_state);
    m
}

/// The message for a request to a model:
/// `Making request to model: <model> (prompt length: <prompt_length>)`.
pub fn log_model_request(model: &str, prompt_length: usize) -> (r: String)
    ensures
        r@ == "Making request to model: "@ + model@ + " (prompt length: "@ + decimal(
            prompt_length as nat,
        ) + ")"@,
{
    let mut m = String::from_str("Making request to model: ");
    m.append(model);
    m.append(" (prompt length: ");
    let d = decimal_string(prompt_length as u64);
    m.append(d.as_str());
    m.append(")");
    m
}

} // verus!
