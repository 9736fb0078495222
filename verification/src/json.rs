//! JSON values that protocol fields carry: arbitrary documents passed through
//! unread, and numbers as the schema checks read them.
use vstd::prelude::*;

verus! {

/// `serde_json::Value`: an arbitrary JSON document. The schemas only carry
/// such values; no validation reads inside one.
#[verifier::external_type_specification]
#[verifier::external_body]
pub struct ExJsonValue(serde_json::Value);

/// A JSON number as the schema checks read it: whether it is finite, whether
/// it is NaN, whether it is below zero, and the text `Display` renders for it
/// (the shortest text that parses back to the same value).
#[derive(Debug, Clone)]
pub struct NumberValue {
    pub finite: bool,
    pub is_nan: bool,
    pub negative: bool,
    pub text: String,
}

impl NumberValue {
    /// `n >= 0.0`: neither NaN nor below zero.
    pub open spec fn at_least_zero(&self) -> bool {
        !self.is_nan && !self.negative
    }
}

} // verus!
