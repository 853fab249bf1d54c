//! Connection session behavior: handshake, capability gates, correlation.

use mcp_core::connection::{Connection, ConnectionState, RequestKind};
use mcp_core::error::McpServiceError;
use mcp_core::protocol::{
    InitializeResult, MCPCapability, MCPError, MCPServerInfo, PromptsCapability,
    ResourcesCapability, ToolsCapability, ToolsCallParams,
};

fn client_info() -> MCPServerInfo {
    MCPServerInfo {
        name: "host".to_string(),
        version: "1.0".to_string(),
        description: None,
        vendor: None,
    }
}

fn server_caps(tools: bool, resources: bool, prompts: bool) -> MCPCapability {
    MCPCapability {
        resources: if resources {
            Some(ResourcesCapability { subscribe: false, list_changed: true })
        } else {
            None
        },
        prompts: if prompts { Some(PromptsCapability { list_changed: true }) } else { None },
        tools: if tools { Some(ToolsCapability { list_changed: true }) } else { None },
        logging: false,
    }
}

fn ready_connection(tools: bool, resources: bool, prompts: bool) -> Connection {
    let mut conn = Connection::new("2025-11-25".to_string(), MCPCapability::default());
    let req = conn.begin_initialize(client_info()).expect("handshake request");
    assert_eq!(req.method, "initialize".to_string());
    assert_eq!(conn.accept_response_id(req.id), Some(RequestKind::Initialize));
    conn.complete_initialize(Ok(InitializeResult {
        protocol_version: "2025-11-25".to_string(),
        capabilities: server_caps(tools, resources, prompts),
        server_info: MCPServerInfo {
            name: "srv".to_string(),
            version: "0.1".to_string(),
            description: None,
            vendor: None,
        },
    }))
    .expect("handshake completion");
    assert_eq!(conn.state, ConnectionState::Ready);
    conn
}

#[test]
fn handshake_reaches_ready_with_intersected_capabilities() {
    let conn = ready_connection(true, false, true);
    let caps = conn.capabilities.expect("negotiated set");
    // The client declares every group; the server only tools and prompts.
    assert!(caps.tools.is_some());
    assert!(caps.resources.is_none());
    assert!(caps.prompts.is_some());
    // Flags are ANDed: the client default has list_changed off.
    assert_eq!(caps.tools, Some(ToolsCapability { list_changed: false }));
    assert_eq!(conn.protocol_version, Some("2025-11-25".to_string()));
}

#[test]
fn version_mismatch_fails_the_handshake() {
    let mut conn = Connection::new("2025-11-25".to_string(), MCPCapability::default());
    let req = conn.begin_initialize(client_info()).expect("handshake request");
    assert_eq!(conn.accept_response_id(req.id), Some(RequestKind::Initialize));
    let outcome = conn.complete_initialize(Ok(InitializeResult {
        protocol_version: "1999-01-01".to_string(),
        capabilities: server_caps(true, true, true),
        server_info: client_info(),
    }));
    assert!(matches!(outcome, Err(McpServiceError::ProtocolError(_))));
    assert_eq!(conn.state, ConnectionState::Failed);
    assert!(conn.capabilities.is_none());
}

#[test]
fn handshake_error_fails_the_session() {
    let mut conn = Connection::new("2025-11-25".to_string(), MCPCapability::default());
    let req = conn.begin_initialize(client_info()).expect("handshake request");
    assert_eq!(conn.accept_response_id(req.id), Some(RequestKind::Initialize));
    let outcome = conn.complete_initialize(Err(MCPError::internal_error("spawn died".to_string())));
    assert!(matches!(outcome, Err(McpServiceError::ProtocolError(_))));
    assert_eq!(conn.state, ConnectionState::Failed);
}

#[test]
fn missing_capability_fails_fast_without_transport_io() {
    // The server never declared prompts: the capability guard must refuse before any
    // request is produced, leaving the pending table untouched.
    let mut conn = ready_connection(true, true, false);
    let pending_before = conn.pending.len();
    let next_id_before = conn.next_id;
    let r = conn.begin_prompts_list();
    assert!(matches!(r, Err(McpServiceError::CapabilityError(_))));
    assert_eq!(conn.pending.len(), pending_before);
    assert_eq!(conn.next_id, next_id_before);
    assert_eq!(conn.state, ConnectionState::Ready);
}

#[test]
fn operations_refused_while_not_ready() {
    let mut conn = Connection::new("2025-11-25".to_string(), MCPCapability::default());
    let r = conn.begin_tools_list();
    assert!(matches!(r, Err(McpServiceError::NotConnected(_))));
    assert!(conn.pending.is_empty());
}

#[test]
fn response_ids_correlate_with_pending_requests() {
    let mut conn = ready_connection(true, true, true);
    let q1 = conn.begin_tools_list().expect("tools/list");
    let q2 = conn.begin_ping().expect("ping");
    assert_ne!(q1.id, q2.id);
    assert_eq!(conn.pending.len(), 2);

    // An unmatched id is dropped, counted, and nothing else changes.
    let before = conn.pending.clone();
    assert_eq!(conn.accept_response_id(9999), None);
    assert_eq!(conn.anomalies, 1);
    assert_eq!(conn.pending, before);

    // Matching ids complete out of order.
    assert_eq!(conn.accept_response_id(q2.id), Some(RequestKind::Ping));
    assert_eq!(conn.accept_response_id(q1.id), Some(RequestKind::ToolsList));
    assert!(conn.pending.is_empty());

    // A reused id after removal is a protocol anomaly, not a crash.
    assert_eq!(conn.accept_response_id(q1.id), None);
    assert_eq!(conn.anomalies, 2);
}

#[test]
fn tool_call_gate_checks_capability_not_tool_name() {
    // The negotiated capabilities include tools; a call for an unknown tool
    // name must pass the capability guard and reach the server, which reports the
    // failure in its result.
    let mut conn = ready_connection(true, true, true);
    let q = conn
        .begin_tools_call(ToolsCallParams { name: "no-such-tool".to_string(), arguments: None })
        .expect("only the capability is checked, not the name");
    assert_eq!(q.method, "tools/call".to_string());
    // The server answers with a tool-not-found error result for that id.
    assert_eq!(conn.accept_response_id(q.id), Some(RequestKind::ToolsCall));
    assert_eq!(conn.state, ConnectionState::Ready);
}

#[test]
fn notifications_invalidate_caches_and_spare_the_pending_table() {
    let mut conn = ready_connection(true, true, true);
    conn.note_tools_listed(vec![]);
    conn.note_resources_listed(vec![]);
    conn.note_prompts_listed(vec![]);
    let q = conn.begin_tools_list().expect("tools/list");

    conn.handle_notification("notifications/tools/list_changed");
    assert!(conn.cached_tools.is_none());
    assert!(conn.cached_resources.is_some());
    assert!(conn.cached_prompts.is_some());
    assert_eq!(conn.pending.len(), 1);
    assert_eq!(conn.pending[0].0, q.id);

    conn.handle_notification("notifications/resources/list_changed");
    assert!(conn.cached_resources.is_none());
    conn.handle_notification("notifications/prompts/list_changed");
    assert!(conn.cached_prompts.is_none());

    // An unknown notification changes nothing.
    conn.handle_notification("notifications/other");
    assert_eq!(conn.pending.len(), 1);
}

#[test]
fn close_fails_all_pending_requests() {
    let mut conn = ready_connection(true, true, true);
    let q1 = conn.begin_tools_list().expect("tools/list");
    let q2 = conn.begin_resources_list().expect("resources/list");
    let failed = conn.close();
    assert_eq!(failed, vec![q1.id, q2.id]);
    assert_eq!(conn.state, ConnectionState::Closed);
    assert!(conn.pending.is_empty());
    assert!(conn.capabilities.is_none());
}

#[test]
fn begin_initialize_requires_a_fresh_session() {
    let mut conn = ready_connection(true, true, true);
    let r = conn.begin_initialize(client_info());
    assert!(matches!(r, Err(McpServiceError::ProtocolError(_))));
}

#[test]
fn timeout_releases_the_pending_slot() {
    let mut conn = ready_connection(true, true, true);
    let q = conn
        .begin_tools_call(ToolsCallParams { name: "slow".to_string(), arguments: None })
        .expect("tools/call request");
    assert_eq!(conn.pending.len(), 1);

    // The caller's timeout fires: the slot is released without an anomaly.
    assert_eq!(conn.cancel_request(q.id), Some(RequestKind::ToolsCall));
    assert!(conn.pending.is_empty());
    assert_eq!(conn.anomalies, 0);

    // Cancelling again is a no-op; the late response is a dropped anomaly.
    assert_eq!(conn.cancel_request(q.id), None);
    assert_eq!(conn.accept_response_id(q.id), None);
    assert_eq!(conn.anomalies, 1);
}
