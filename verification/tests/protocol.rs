//! Protocol model behavior: error taxonomy, message classification,
//! capability negotiation and placeholder substitution.

use mcp_core::protocol::{
    classify_message, default_protocol_version, negotiate_capabilities, replace_all_str,
    substitute_text, MCPCapability, MCPError, MCPMessage, MCPPromptMessageContent,
    MCPPromptMessageContentBlock, MCPRequest, MCPResponse, PromptsCapability, RawMessage,
    ResourcesCapability, ToolsCapability, INTERNAL_ERROR, INVALID_PARAMS, INVALID_REQUEST,
    METHOD_NOT_FOUND, PARSE_ERROR, RESOURCE_NOT_FOUND,
};

#[test]
fn error_codes_match_the_taxonomy() {
    assert_eq!(PARSE_ERROR, -32700);
    assert_eq!(INVALID_REQUEST, -32600);
    assert_eq!(METHOD_NOT_FOUND, -32601);
    assert_eq!(INVALID_PARAMS, -32602);
    assert_eq!(INTERNAL_ERROR, -32603);
    assert_eq!(RESOURCE_NOT_FOUND, -32002);

    let e = MCPError::parse_error("bad json".to_string());
    assert_eq!(e.code, -32700);
    assert_eq!(e.message, "bad json".to_string());
    let e = MCPError::invalid_request("nope".to_string());
    assert_eq!(e.code, -32600);
    let e = MCPError::method_not_found("tools/install");
    assert_eq!(e.code, -32601);
    assert_eq!(e.message, "Method not found: tools/install".to_string());
    let e = MCPError::invalid_params("missing uri".to_string());
    assert_eq!(e.code, -32602);
    let e = MCPError::internal_error("boom".to_string());
    assert_eq!(e.code, -32603);
}

#[test]
fn protocol_version_is_pinned() {
    assert_eq!(default_protocol_version(), "2025-11-25".to_string());
}

#[test]
fn envelope_constructors_carry_the_version_marker() {
    let q = MCPRequest::new(7, "ping".to_string(), None);
    assert_eq!(q.jsonrpc, "2.0".to_string());
    assert_eq!(q.id, 7);
    assert_eq!(q.method, "ping".to_string());

    let ok = MCPResponse::success(7, serde_json::Value::Null);
    assert_eq!(ok.jsonrpc, "2.0".to_string());
    assert_eq!(ok.id, 7);
    assert!(ok.result.is_some());
    assert!(ok.error.is_none());

    let err = MCPResponse::error(8, MCPError::internal_error("x".to_string()));
    assert_eq!(err.id, 8);
    assert!(err.result.is_none());
    assert_eq!(err.error.map(|e| e.code), Some(-32603));
}

fn raw(id: Option<u64>, method: Option<&str>) -> RawMessage {
    RawMessage {
        jsonrpc: "2.0".to_string(),
        id,
        method: method.map(|m| m.to_string()),
        params: None,
        result: None,
        error: None,
    }
}

#[test]
fn messages_classify_by_field_presence() {
    match classify_message(raw(Some(1), Some("tools/list"))) {
        Ok(MCPMessage::Request(q)) => {
            assert_eq!(q.id, 1);
            assert_eq!(q.method, "tools/list".to_string());
        }
        other => panic!("expected a request, got {:?}", other),
    }
    match classify_message(raw(Some(2), None)) {
        Ok(MCPMessage::Response(p)) => assert_eq!(p.id, 2),
        other => panic!("expected a response, got {:?}", other),
    }
    match classify_message(raw(None, Some("notifications/tools/list_changed"))) {
        Ok(MCPMessage::Notification(n)) => {
            assert_eq!(n.method, "notifications/tools/list_changed".to_string());
        }
        other => panic!("expected a notification, got {:?}", other),
    }
    match classify_message(raw(None, None)) {
        Err(e) => assert_eq!(e.code, -32600),
        other => panic!("expected an invalid request, got {:?}", other),
    }
}

#[test]
fn negotiation_is_the_fieldwise_and() {
    let client = MCPCapability {
        resources: Some(ResourcesCapability { subscribe: true, list_changed: true }),
        prompts: Some(PromptsCapability { list_changed: true }),
        tools: Some(ToolsCapability { list_changed: false }),
        logging: true,
    };
    let server = MCPCapability {
        resources: Some(ResourcesCapability { subscribe: false, list_changed: true }),
        prompts: None,
        tools: Some(ToolsCapability { list_changed: true }),
        logging: false,
    };
    let n = negotiate_capabilities(&client, &server);
    assert_eq!(n.resources, Some(ResourcesCapability { subscribe: false, list_changed: true }));
    assert_eq!(n.prompts, None);
    assert_eq!(n.tools, Some(ToolsCapability { list_changed: false }));
    assert!(!n.logging);
}

#[test]
fn default_capability_offers_every_group() {
    let d = MCPCapability::default();
    assert_eq!(d.resources, Some(ResourcesCapability { subscribe: false, list_changed: false }));
    assert_eq!(d.prompts, Some(PromptsCapability { list_changed: false }));
    assert_eq!(d.tools, Some(ToolsCapability { list_changed: false }));
    assert!(!d.logging);
}

#[test]
fn replace_all_rewrites_every_occurrence() {
    assert_eq!(replace_all_str("a-b-a", "a", "xy"), "xy-b-xy".to_string());
    assert_eq!(replace_all_str("aaa", "aa", "b"), "ba".to_string());
    assert_eq!(replace_all_str("hello", "zz", "y"), "hello".to_string());
    assert_eq!(replace_all_str("hello", "", "y"), "hello".to_string());
}

#[test]
fn substitution_replaces_placeholder_tokens() {
    let args = vec![
        ("name".to_string(), "Ada".to_string()),
        ("lang".to_string(), "Rust".to_string()),
    ];
    assert_eq!(
        substitute_text("Hi {{name}}, write {{lang}}. Bye {{name}}.", &args),
        "Hi Ada, write Rust. Bye Ada.".to_string()
    );
    // A key without a value in the arguments stays as it is.
    assert_eq!(
        substitute_text("{{unknown}} stays", &args),
        "{{unknown}} stays".to_string()
    );
}

#[test]
fn content_substitution_touches_only_text_variants() {
    let args = vec![("k".to_string(), "v".to_string())];

    let mut plain = MCPPromptMessageContent::Plain("see {{k}}".to_string());
    plain.substitute_placeholders(&args);
    assert_eq!(plain.text_or_placeholder(), "see v".to_string());

    let mut block = MCPPromptMessageContent::Block(MCPPromptMessageContentBlock::Text {
        text: "{{k}}{{k}}".to_string(),
    });
    block.substitute_placeholders(&args);
    assert_eq!(block.text_or_placeholder(), "vv".to_string());

    let mut image = MCPPromptMessageContent::Block(MCPPromptMessageContentBlock::Image {
        data: "{{k}}".to_string(),
        mime_type: "image/png".to_string(),
    });
    image.substitute_placeholders(&args);
    match image {
        MCPPromptMessageContent::Block(MCPPromptMessageContentBlock::Image { data, .. }) => {
            assert_eq!(data, "{{k}}".to_string());
        }
        other => panic!("variant changed: {:?}", other),
    }
}

#[test]
fn placeholders_render_for_non_text_content() {
    let image = MCPPromptMessageContent::Block(MCPPromptMessageContentBlock::Image {
        data: "xxx".to_string(),
        mime_type: "image/png".to_string(),
    });
    assert_eq!(image.text_or_placeholder(), "[Image: image/png]".to_string());

    let audio = MCPPromptMessageContent::Block(MCPPromptMessageContentBlock::Audio {
        data: "xxx".to_string(),
        mime_type: "audio/wav".to_string(),
    });
    assert_eq!(audio.text_or_placeholder(), "[Audio: audio/wav]".to_string());
}
