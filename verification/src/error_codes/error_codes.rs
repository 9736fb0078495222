//! Gateway JSON-RPC style error codes shared by clients and server handlers.
use vstd::prelude::*;

verus! {

/// The client has not completed account or device linking with this gateway.
pub const NOT_LINKED: &'static str = "NOT_LINKED";
/// The device exists but still needs an explicit pairing approval.
pub const NOT_PAIRED: &'static str = "NOT_PAIRED";
/// An agent turn exceeded the gateway wait window.
pub const AGENT_TIMEOUT: &'static str = "AGENT_TIMEOUT";
/// The request payload failed protocol validation or method preconditions.
pub const INVALID_REQUEST: &'static str = "INVALID_REQUEST";
/// An approval resolution referenced a missing or expired approval request.
pub const APPROVAL_NOT_FOUND: &'static str = "APPROVAL_NOT_FOUND";
/// The gateway service or a required backend is temporarily unavailable.
pub const UNAVAILABLE: &'static str = "UNAVAILABLE";

} // verus!
