//! Categories of the registered gateway protocol schemas.
use vstd::prelude::*;

verus! {

/// Coarse category of a registered schema.
#[derive(Debug, Clone, Copy, PartialEq, Eq, Hash, Structural)]
pub enum ProtocolSchemaKind {
    /// Handshake or transport envelope.
    Transport,
    /// Snapshot or state payload.
    Snapshot,
    /// Request parameters (the request's `params` field).
    Request,
    /// Result or response payload.
    Result,
    /// Server-pushed event payload.
    Event,
    /// Shared error envelope.
    Error,
    /// Other supporting type.
    Other,
}

} // verus!
