//! A resilience layer for calls to a slow or failing dependency: bounded
//! retries with exponential backoff, and a circuit breaker that fails fast
//! while the dependency is unhealthy, together with the request handling
//! rules of a chat service built on them.

pub mod chat;
pub mod circuit_breaker;
pub mod client;
pub mod logging;
pub mod retry;
pub mod text;
pub mod tts;
pub mod types;
