//! Canonical gateway error codes and the error payload built from them.
use vstd::prelude::*;
use crate::frames::ErrorShape;

pub mod error_codes;

verus! {

/// One of the canonical gateway error code strings.
pub type ErrorCode = &'static str;

/// Builds the canonical gateway error payload, keeping the optional details
/// and retry metadata as given.
pub fn error_shape(
    code: ErrorCode,
    message: &str,
    details: Option<serde_json::Value>,
    retryable: Option<bool>,
    retry_after_ms: Option<i64>,
) -> (r: ErrorShape)
    ensures
        r.code@ == code@,
        r.message@ == message@,
        r.details == details,
        r.retryable == retryable,
        r.retry_after_ms == retry_after_ms,
{
    ErrorShape {
        code: String::from_str(code),
        message: String::from_str(message),
        details,
        retryable,
        retry_after_ms,
    }
}

} // verus!
