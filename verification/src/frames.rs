//! Transport envelopes shared by every gateway response.
use vstd::prelude::*;

verus! {

/// The canonical gateway error payload: a code, a message, and optional
/// details and retry metadata.
#[derive(Debug, Clone)]
pub struct ErrorShape {
    pub code: String,
    pub message: String,
    pub details: Option<serde_json::Value>,
    pub retryable: Option<bool>,
    pub retry_after_ms: Option<i64>,
}

} // verus!
