//! Server lifecycle behavior: start/stop/restart, failure isolation,
//! passthrough and the UI-resource scheme guard.

use mcp_core::connection::{Connection, ConnectionState, RequestKind};
use mcp_core::error::McpServiceError;
use mcp_core::fsmodel::FsSnapshot;
use mcp_core::manager::{
    classify_passthrough, fallback_status, is_ui_resource_uri, passthrough_reject,
    FetchMCPAppResourceRequest, MCPServerInfo, PassthroughMethod, ServerConfig, ServerManager,
    ServerStatus, ServerType, StartAction, StartOutcome,
};
use mcp_core::protocol::{
    InitializeResult, MCPCapability, ToolsCallParams,
};
use mcp_core::runtime::{RuntimeManager, RuntimeSource};

fn local_config(id: &str, command: &str, enabled: bool, auto_start: bool) -> ServerConfig {
    ServerConfig {
        id: id.to_string(),
        name: id.to_string(),
        server_type: ServerType::Local,
        command: Some(command.to_string()),
        args: vec!["server.js".to_string()],
        env: vec![],
        url: None,
        enabled,
        auto_start,
    }
}

fn managed_node_fs() -> FsSnapshot {
    FsSnapshot {
        files: vec!["/rt/node/current/bin/node".to_string()],
        dirs: vec![],
        path_dirs: vec!["/usr/bin".to_string()],
        extra_path_dirs: vec![],
    }
}

fn ready_connection() -> Connection {
    let mut conn = Connection::new("2025-11-25".to_string(), MCPCapability::default());
    let req = conn
        .begin_initialize(mcp_core::protocol::MCPServerInfo {
            name: "host".to_string(),
            version: "1.0".to_string(),
            description: None,
            vendor: None,
        })
        .expect("handshake request");
    assert_eq!(conn.accept_response_id(req.id), Some(RequestKind::Initialize));
    conn.complete_initialize(Ok(InitializeResult {
        protocol_version: "2025-11-25".to_string(),
        capabilities: MCPCapability::default(),
        server_info: mcp_core::protocol::MCPServerInfo {
            name: "srv".to_string(),
            version: "0.1".to_string(),
            description: None,
            vendor: None,
        },
    }))
    .expect("handshake completion");
    conn
}

fn manager_with(configs: Vec<ServerConfig>) -> ServerManager {
    ServerManager::new(configs, "2025-11-25".to_string(), MCPCapability::default())
}

fn start_fs(m: &mut ServerManager, id: &str, fs: &FsSnapshot) {
    let runtime = RuntimeManager::with_runtime_root("/rt".to_string());
    match m.start_server_begin(id, &runtime, fs).expect("start must begin") {
        StartAction::Spawn { .. } | StartAction::Dial { .. } => {}
        StartAction::AlreadyRunning => return,
    }
    m.start_server_finish(id, StartOutcome::Connected(ready_connection()))
        .expect("start must finish");
}

#[test]
fn managed_command_start_reaches_running() {
    // Config {id:"fs", Local, command "node", enabled, autoStart}; the system
    // has no node but the managed bundle does.
    let mut m = manager_with(vec![local_config("fs", "node", true, true)]);
    let fs = managed_node_fs();
    let runtime = RuntimeManager::with_runtime_root("/rt".to_string());

    let action = m.start_server_begin("fs", &runtime, &fs).expect("start must begin");
    match action {
        StartAction::Spawn { resolved, args, path_entries, .. } => {
            assert_eq!(resolved.source, RuntimeSource::Managed);
            assert_eq!(resolved.resolved_path.as_deref(), Some("/rt/node/current/bin/node"));
            assert_eq!(args, vec!["server.js".to_string()]);
            // With no managed PATH entry dirs in this snapshot the child gets
            // the process search path as it is.
            assert_eq!(path_entries, vec!["/usr/bin".to_string()]);
        }
        other => panic!("expected a spawn action, got {:?}", other),
    }
    assert!(matches!(m.get_server_status("fs"), Ok(ServerStatus::Starting)));

    m.start_server_finish("fs", StartOutcome::Connected(ready_connection()))
        .expect("start must finish");
    assert!(matches!(m.get_server_status("fs"), Ok(ServerStatus::Running)));
    let conn = m.get_connection("fs").expect("a Running server has a connection");
    assert_eq!(conn.state, ConnectionState::Ready);
}

#[test]
fn start_is_idempotent_while_running() {
    let mut m = manager_with(vec![local_config("fs", "node", true, true)]);
    let fs = managed_node_fs();
    start_fs(&mut m, "fs", &fs);
    assert!(matches!(m.get_server_status("fs"), Ok(ServerStatus::Running)));

    // A second start makes no new connection and reports Running untouched.
    let runtime = RuntimeManager::with_runtime_root("/rt".to_string());
    let again = m.start_server_begin("fs", &runtime, &fs).expect("idempotent start");
    assert!(matches!(again, StartAction::AlreadyRunning));
    assert!(matches!(m.get_server_status("fs"), Ok(ServerStatus::Running)));
    assert!(m.get_connection("fs").is_some());
}

#[test]
fn stop_then_start_drives_running_stopped_running() {
    let mut m = manager_with(vec![local_config("fs", "node", true, true)]);
    let fs = managed_node_fs();
    start_fs(&mut m, "fs", &fs);
    assert!(matches!(m.get_server_status("fs"), Ok(ServerStatus::Running)));

    let failed = m.stop_server("fs").expect("stop");
    assert!(failed.is_empty());
    assert!(matches!(m.get_server_status("fs"), Ok(ServerStatus::Stopped)));
    assert!(m.get_connection("fs").is_none());

    start_fs(&mut m, "fs", &fs);
    assert!(matches!(m.get_server_status("fs"), Ok(ServerStatus::Running)));
}

#[test]
fn stop_is_a_noop_when_not_running() {
    let mut m = manager_with(vec![local_config("fs", "node", true, true)]);
    let failed = m.stop_server("fs").expect("no-op stop");
    assert!(failed.is_empty());
    assert!(matches!(m.get_server_status("fs"), Ok(ServerStatus::Uninitialized)));
}

#[test]
fn restart_on_uninitialized_behaves_as_start() {
    let fs = managed_node_fs();
    let runtime = RuntimeManager::with_runtime_root("/rt".to_string());

    let mut started = manager_with(vec![local_config("fs", "node", true, true)]);
    let via_start = started.start_server_begin("fs", &runtime, &fs).expect("start");

    let mut restarted = manager_with(vec![local_config("fs", "node", true, true)]);
    let via_restart = restarted.restart_server_begin("fs", &runtime, &fs).expect("restart");

    // Identical actions and identical statuses afterward.
    match (via_start, via_restart) {
        (
            StartAction::Spawn { resolved: a, args: aa, path_entries: ap, .. },
            StartAction::Spawn { resolved: b, args: ba, path_entries: bp, .. },
        ) => {
            assert_eq!(a.resolved_path, b.resolved_path);
            assert_eq!(a.source, b.source);
            assert_eq!(aa, ba);
            assert_eq!(ap, bp);
        }
        other => panic!("expected two spawn actions, got {:?}", other),
    }
    assert!(matches!(started.get_server_status("fs"), Ok(ServerStatus::Starting)));
    assert!(matches!(restarted.get_server_status("fs"), Ok(ServerStatus::Starting)));
}

#[test]
fn restart_stops_a_running_server_first() {
    let mut m = manager_with(vec![local_config("fs", "node", true, true)]);
    let fs = managed_node_fs();
    start_fs(&mut m, "fs", &fs);

    let runtime = RuntimeManager::with_runtime_root("/rt".to_string());
    let action = m.restart_server_begin("fs", &runtime, &fs).expect("restart");
    assert!(matches!(action, StartAction::Spawn { .. }));
    assert!(matches!(m.get_server_status("fs"), Ok(ServerStatus::Starting)));
    assert!(m.get_connection("fs").is_none());
}

#[test]
fn unresolvable_command_errors_that_server_alone() {
    let mut m = manager_with(vec![
        local_config("bad", "ghost-command", true, true),
        local_config("good", "node", true, true),
    ]);
    let fs = managed_node_fs();
    let runtime = RuntimeManager::with_runtime_root("/rt".to_string());

    let r = m.start_server_begin("bad", &runtime, &fs);
    assert!(matches!(r, Err(McpServiceError::TransportError(_))));
    match m.get_server_status("bad") {
        Ok(ServerStatus::Error(reason)) => {
            assert_eq!(reason, "command not resolvable: ghost-command".to_string());
        }
        other => panic!("expected an Error status, got {:?}", other),
    }
    // The sibling server is untouched and still starts.
    assert!(matches!(m.get_server_status("good"), Ok(ServerStatus::Uninitialized)));
    start_fs(&mut m, "good", &fs);
    assert!(matches!(m.get_server_status("good"), Ok(ServerStatus::Running)));
}

#[test]
fn unknown_id_is_server_not_found() {
    let mut m = manager_with(vec![local_config("fs", "node", true, true)]);
    let runtime = RuntimeManager::with_runtime_root("/rt".to_string());
    let fs = managed_node_fs();
    assert!(matches!(
        m.start_server_begin("nope", &runtime, &fs),
        Err(McpServiceError::ServerNotFound(_))
    ));
    assert!(matches!(m.get_server_status("nope"), Err(McpServiceError::ServerNotFound(_))));
    assert!(matches!(m.stop_server("nope"), Err(McpServiceError::ServerNotFound(_))));
}

#[test]
fn non_destructive_selection_spares_live_servers() {
    let mut m = manager_with(vec![
        local_config("a", "node", true, true),
        local_config("b", "node", true, true),
        local_config("c", "node", true, false),
        local_config("d", "node", false, true),
    ]);
    let fs = managed_node_fs();
    start_fs(&mut m, "a", &fs);

    // "a" is Running, "c" does not auto-start, "d" is disabled: only "b" is
    // selected, so Running and Error servers are never disturbed.
    let ids = m.non_destructive_start_ids();
    assert_eq!(ids, vec!["b".to_string()]);

    // The full auto-start selection still lists both enabled auto-starters.
    let all = m.auto_start_ids();
    assert_eq!(all, vec!["a".to_string(), "b".to_string()]);
}

#[test]
fn passthrough_accepts_exactly_three_methods() {
    assert_eq!(classify_passthrough("tools/call"), Some(PassthroughMethod::ToolsCall));
    assert_eq!(classify_passthrough("resources/read"), Some(PassthroughMethod::ResourcesRead));
    assert_eq!(classify_passthrough("ping"), Some(PassthroughMethod::Ping));
    assert_eq!(classify_passthrough("tools/list"), None);
    assert_eq!(classify_passthrough("initialize"), None);

    let reply = passthrough_reject(5, "tools/list");
    assert_eq!(reply.id, 5);
    assert!(reply.result.is_none());
    let err = reply.error.expect("a rejection carries the error");
    assert_eq!(err.code, -32601);
    assert_eq!(err.message, "Method not found: tools/list".to_string());
}

#[test]
fn ui_fetch_rejects_foreign_schemes_before_any_connection_call() {
    let mut m = manager_with(vec![local_config("fs", "node", true, true)]);
    let fs = managed_node_fs();
    start_fs(&mut m, "fs", &fs);
    let pending_before = m.get_connection("fs").expect("running").pending.len();

    assert!(!is_ui_resource_uri("http://example.com/widget"));
    let r = m.fetch_ui_resource_begin(&FetchMCPAppResourceRequest {
        server_id: "fs".to_string(),
        resource_uri: "http://example.com/widget".to_string(),
    });
    assert!(matches!(r, Err(McpServiceError::ProtocolError(_))));
    // Rejected before the connection was consulted: nothing went in flight.
    assert_eq!(m.get_connection("fs").expect("running").pending.len(), pending_before);

    // The ui scheme goes through to a resources/read request.
    assert!(is_ui_resource_uri("ui://my-server/widget"));
    let q = m
        .fetch_ui_resource_begin(&FetchMCPAppResourceRequest {
            server_id: "fs".to_string(),
            resource_uri: "ui://my-server/widget".to_string(),
        })
        .expect("ui fetch request");
    assert_eq!(q.method, "resources/read".to_string());
    assert_eq!(m.get_connection("fs").expect("running").pending.len(), pending_before + 1);
}

#[test]
fn tool_calls_route_through_the_running_connection() {
    let mut m = manager_with(vec![local_config("fs", "node", true, true)]);
    let fs = managed_node_fs();
    start_fs(&mut m, "fs", &fs);

    let q = m
        .call_tool_begin("fs", ToolsCallParams { name: "list_dir".to_string(), arguments: None })
        .expect("tools/call request");
    assert_eq!(q.method, "tools/call".to_string());

    // The response completes the call; an unknown id afterward is an anomaly.
    assert_eq!(m.accept_response("fs", q.id).expect("running"), Some(RequestKind::ToolsCall));
    assert_eq!(m.accept_response("fs", q.id).expect("running"), None);
    assert_eq!(m.get_connection("fs").expect("running").anomalies, 1);

    // Pings need no capability.
    let p = m.ping_begin("fs").expect("ping request");
    assert_eq!(p.method, "ping".to_string());

    // A stopped server refuses operations with NotConnected.
    m.stop_server("fs").expect("stop");
    assert!(matches!(m.ping_begin("fs"), Err(McpServiceError::NotConnected(_))));
}

#[test]
fn status_surface_reports_labels_and_flags() {
    let mut m = manager_with(vec![
        local_config("fs", "node", true, true),
        local_config("off", "node", false, false),
    ]);
    let fs = managed_node_fs();
    start_fs(&mut m, "fs", &fs);

    let infos: Vec<MCPServerInfo> = m.server_infos();
    assert_eq!(infos.len(), 2);
    assert_eq!(infos[0].id, "fs".to_string());
    assert_eq!(infos[0].status, "Running".to_string());
    assert_eq!(infos[0].server_type, "Local".to_string());
    assert!(infos[0].enabled);
    assert!(infos[0].auto_start);
    assert_eq!(infos[1].id, "off".to_string());
    assert_eq!(infos[1].status, "Disabled".to_string());
    assert!(!infos[1].enabled);
}

#[test]
fn fallback_status_derivation() {
    assert!(matches!(fallback_status(false, false), ServerStatus::Stopped));
    assert!(matches!(fallback_status(false, true), ServerStatus::Stopped));
    assert!(matches!(fallback_status(true, true), ServerStatus::Starting));
    assert!(matches!(fallback_status(true, false), ServerStatus::Uninitialized));
}

#[test]
fn remote_servers_dial_their_url() {
    let mut m = manager_with(vec![ServerConfig {
        id: "web".to_string(),
        name: "web".to_string(),
        server_type: ServerType::Remote,
        command: None,
        args: vec![],
        env: vec![],
        url: Some("https://example.invalid/mcp".to_string()),
        enabled: true,
        auto_start: false,
    }]);
    let fs = managed_node_fs();
    let runtime = RuntimeManager::with_runtime_root("/rt".to_string());
    match m.start_server_begin("web", &runtime, &fs).expect("dial") {
        StartAction::Dial { url } => assert_eq!(url, "https://example.invalid/mcp".to_string()),
        other => panic!("expected a dial action, got {:?}", other),
    }
    assert!(matches!(m.get_server_status("web"), Ok(ServerStatus::Starting)));
}

#[test]
fn failed_start_outcome_is_retained_as_the_error() {
    let mut m = manager_with(vec![local_config("fs", "node", true, true)]);
    let fs = managed_node_fs();
    let runtime = RuntimeManager::with_runtime_root("/rt".to_string());
    m.start_server_begin("fs", &runtime, &fs).expect("begin");
    m.start_server_finish("fs", StartOutcome::Failed("handshake timed out".to_string()))
        .expect("a recorded failure is a successful bookkeeping step");
    match m.get_server_status("fs") {
        Ok(ServerStatus::Error(reason)) => assert_eq!(reason, "handshake timed out".to_string()),
        other => panic!("expected an Error status, got {:?}", other),
    }
    assert!(m.get_connection("fs").is_none());
}

#[test]
fn disabled_server_start_is_a_config_error() {
    let mut m = manager_with(vec![local_config("off", "node", false, false)]);
    let fs = managed_node_fs();
    let runtime = RuntimeManager::with_runtime_root("/rt".to_string());
    let r = m.start_server_begin("off", &runtime, &fs);
    assert!(matches!(r, Err(McpServiceError::ConfigError(_))));
    assert!(matches!(m.get_server_status("off"), Ok(ServerStatus::Disabled)));
    let r2 = m.restart_server_begin("off", &runtime, &fs);
    assert!(matches!(r2, Err(McpServiceError::ConfigError(_))));
}

#[test]
fn remote_server_without_url_errors_out() {
    let mut m = manager_with(vec![ServerConfig {
        id: "web".to_string(),
        name: "web".to_string(),
        server_type: ServerType::Remote,
        command: None,
        args: vec![],
        env: vec![],
        url: None,
        enabled: true,
        auto_start: true,
    }]);
    let fs = managed_node_fs();
    let runtime = RuntimeManager::with_runtime_root("/rt".to_string());
    let r = m.start_server_begin("web", &runtime, &fs);
    assert!(matches!(r, Err(McpServiceError::ConfigError(_))));
    assert!(matches!(m.get_server_status("web"), Ok(ServerStatus::Error(_))));
}

#[test]
fn capability_refusal_reaches_the_caller_through_the_manager() {
    // A server that negotiated no resources group refuses resources/read
    // with a CapabilityError; nothing goes in flight.
    let mut m = manager_with(vec![local_config("fs", "node", true, true)]);
    let fs = managed_node_fs();
    let runtime = RuntimeManager::with_runtime_root("/rt".to_string());
    m.start_server_begin("fs", &runtime, &fs).expect("begin");

    // A handshake against a server that never offered the resources group.
    let mut conn = Connection::new("2025-11-25".to_string(), MCPCapability::default());
    let req = conn
        .begin_initialize(mcp_core::protocol::MCPServerInfo {
            name: "host".to_string(),
            version: "1.0".to_string(),
            description: None,
            vendor: None,
        })
        .expect("handshake request");
    assert_eq!(conn.accept_response_id(req.id), Some(RequestKind::Initialize));
    conn.complete_initialize(Ok(InitializeResult {
        protocol_version: "2025-11-25".to_string(),
        capabilities: MCPCapability { resources: None, ..MCPCapability::default() },
        server_info: mcp_core::protocol::MCPServerInfo {
            name: "srv".to_string(),
            version: "0.1".to_string(),
            description: None,
            vendor: None,
        },
    }))
    .expect("handshake completion");
    m.start_server_finish("fs", StartOutcome::Connected(conn)).expect("finish");

    let r = m.read_resource_begin(
        "fs",
        mcp_core::protocol::ResourcesReadParams { uri: "file:///x".to_string() },
    );
    assert!(matches!(r, Err(McpServiceError::CapabilityError(_))));
    assert!(m.get_connection("fs").expect("running").pending.is_empty());
}

#[test]
fn service_errors_flatten_to_readable_strings() {
    assert_eq!(
        McpServiceError::ConfigError("no url".to_string()).message(),
        "configuration error: no url".to_string()
    );
    assert_eq!(
        McpServiceError::TransportError("spawn failed".to_string()).message(),
        "transport error: spawn failed".to_string()
    );
    assert_eq!(
        McpServiceError::ProtocolError("bad id".to_string()).message(),
        "protocol error: bad id".to_string()
    );
    assert_eq!(
        McpServiceError::CapabilityError("tools".to_string()).message(),
        "capability not negotiated: tools".to_string()
    );
    assert_eq!(
        McpServiceError::ServerNotFound("x".to_string()).message(),
        "server not found: x".to_string()
    );
    assert_eq!(
        McpServiceError::NotConnected("x".to_string()).message(),
        "server not connected: x".to_string()
    );
}
