use vstd::prelude::*;

verus! {

/// A chat message from the user, with an optional system prompt.
pub struct ChatRequest {
    pub message: String,
    pub system_prompt: Option<String>,
}

/// The answer to a chat request: the response text, or the error.
pub struct ChatResponse {
    pub response: String,
    pub success: bool,
    pub error: Option<String>,
}

/// The service's health: always "ok" while it answers, and whether the model is available.
pub struct HealthResponse {
    pub status: String,
    pub model_available: bool,
}

} // verus!
