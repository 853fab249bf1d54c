//! The error taxonomy of the orchestration core.
//!
//! Failures stay typed inside the core; flattening to strings is left to the
//! outermost boundary.

use vstd::prelude::*;

verus! {

/// Why an operation on a server or connection failed.
#[derive(Debug, Clone)]
pub enum McpServiceError {
    /// The configuration is missing or malformed for what was asked.
    ConfigError(String),
    /// Spawning or dialing failed, including an unresolvable command.
    TransportError(String),
    /// A malformed message, an id mismatch, or an unsupported version.
    ProtocolError(String),
    /// An operation was attempted without the negotiated capability.
    CapabilityError(String),
    /// No server is configured under the given id.
    ServerNotFound(String),
    /// The operation needs a Running server and there is none.
    NotConnected(String),
}

impl McpServiceError {
    /// A human-readable description of the failure.
    pub fn message(&self) -> (r: String)
        ensures
            match self {
                McpServiceError::ConfigError(m) => r@ == "configuration error: "@ + m@,
                McpServiceError::TransportError(m) => r@ == "transport error: "@ + m@,
                McpServiceError::ProtocolError(m) => r@ == "protocol error: "@ + m@,
                McpServiceError::CapabilityError(m) => r@ == "capability not negotiated: "@ + m@,
                McpServiceError::ServerNotFound(m) => r@ == "server not found: "@ + m@,
                McpServiceError::NotConnected(m) => r@ == "server not connected: "@ + m@,
            },
    {
        match self {
            McpServiceError::ConfigError(m) => String::from_str("configuration error: ").concat(
                m.as_str(),
            ),
            McpServiceError::TransportError(m) => String::from_str("transport error: ").concat(
                m.as_str(),
            ),
            McpServiceError::ProtocolError(m) => String::from_str("protocol error: ").concat(
                m.as_str(),
            ),
            McpServiceError::CapabilityError(m) => String::from_str(
                "capability not negotiated: ",
            ).concat(m.as_str()),
            McpServiceError::ServerNotFound(m) => String::from_str("server not found: ").concat(
                m.as_str(),
            ),
            McpServiceError::NotConnected(m) => String::from_str("server not connected: ").concat(
                m.as_str(),
            ),
        }
    }
}

} // verus!
