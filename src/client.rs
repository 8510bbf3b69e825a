use vstd::prelude::*;
use vstd::string::*;

use crate::circuit_breaker::{CircuitBreakerConfig, CircuitBreakerError};
use crate::retry::RetryConfig;

verus! {

/// The model that answers chat requests.
pub open spec fn model_name() -> Seq<char> {
    "llama3.2:1b"@
}

/// The name of the model that answers chat requests.
pub fn model() -> (r: &'static str)
    ensures
        r@ == model_name(),
{
    "llama3.2:1b"
}

/// The breaker in front of the model: three failures open it for 30 s.
pub fn client_breaker_config() -> (r: CircuitBreakerConfig)
    ensures
        r.failure_threshold == 3,
        r.timeout_ms == 30_000,
        r.success_threshold == 1,
{
    CircuitBreakerConfig { failure_threshold: 3, timeout_ms: 30_000, success_threshold: 1 }
}

/// Retries of a model call: three attempts, 500 ms doubling up to 10 s.
pub fn client_retry_config() -> (r: RetryConfig)
    ensures
        r.wf(),
        r.max_attempts == 3,
        r.initial_delay_ms == 500,
        r.max_delay_ms == 10_000,
        r.backoff_multiplier == 2,
{
    RetryConfig {
        max_attempts: 3,
        initial_delay_ms: 500,
        max_delay_ms: 10_000,
        backoff_multiplier: 2,
    }
}

/// The message given to the caller when the breaker refused a generation.
pub open spec fn breaker_open_message() -> Seq<char> {
    "Service temporarily unavailable due to circuit breaker"@
}

/// The outcome of a guarded generation as the caller sees it: the text, or
/// an error message (the operation's own, or a notice that the breaker is open).
pub fn generation_result(guarded: Result<String, CircuitBreakerError>) -> (r: Result<
    String,
    String,
>)
    ensures
        match guarded {
            Ok(text) => r == Ok::<String, String>(text),
            Err(CircuitBreakerError::CircuitOpen) => r matches Err(m) && m@
                == breaker_open_message(),
            Err(CircuitBreakerError::OperationFailed(e)) => r == Err::<String, String>(e),
        },
{
    match guarded {
        Ok(text) => Ok(text),
        Err(CircuitBreakerError::CircuitOpen) => Err(
            String::from_str("Service temporarily unavailable due to circuit breaker"),
        ),
        Err(CircuitBreakerError::OperationFailed(e)) => Err(e),
    }
}

/// Whether the model is available, from a guarded availability check: any
/// failure, the breaker's included, counts as unavailable.
pub fn availability_result(guarded: Result<bool, CircuitBreakerError>) -> (r: bool)
    ensures
        r == (guarded == Ok::<bool, CircuitBreakerError>(true)),
{
    match guarded {
        Ok(b) => b,
        Err(_) => false,
    }
}

/// Whether `model` is among the locally installed models `names`.
pub fn model_listed(names: &Vec<String>, model: &str) -> (r: bool)
    ensures
        r == exists|i: int| 0 <= i < names@.len() && (#[trigger] names@[i])@ == model@,
{
    let target = String::from_str(model);
    let mut i: usize = 0;
    while i < names.len()
        invariant
            i <= names@.len(),
            target@ == model@,
            forall|p: int| 0 <= p < i ==> (#[trigger] names@[p])@ != model@,
        decreases names@.len() - i,
    {
        if names[i] == target {
            return true;
        }
        i = i + 1;
    }
    false
}

} // verus!
