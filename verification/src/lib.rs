//! Orchestration core for a set of independently configured MCP servers.
//!
//! The crate models the client side of the Model Context Protocol: command
//! resolution for launchable servers, the JSON-RPC message envelope with
//! capability negotiation, a per-server connection state machine with
//! request/response correlation, the lifecycle manager that supervises all
//! configured servers, and a prompt adapter that renders negotiated prompts.
//!
//! All decisions are made over plain data: filesystem probes, process
//! spawning and transport I/O happen outside the crate and their observations
//! are handed in as values.

pub mod connection;
pub mod error;
pub mod fsmodel;
pub mod manager;
pub mod prompt;
pub mod protocol;
pub mod runtime;
pub mod system;
pub mod text;
