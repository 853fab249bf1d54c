//! The JSON-RPC based protocol model: message envelope, error taxonomy,
//! capability descriptors and the tool/resource/prompt schema types.
//!
//! Method parameters, tool schemas and other server-defined payloads are
//! carried as opaque JSON values and forwarded verbatim; everything the core
//! itself decides on — ids, methods, error codes, capability flags — is plain
//! data with exact contracts.

use vstd::prelude::*;

verus! {

/// Relies on `serde_json::Value`: an opaque JSON document carried through the
/// core without inspection.
#[verifier::external_type_specification]
#[verifier::external_body]
pub struct ExValue(serde_json::Value);

/// Relies on `serde_json::Value::clone`, derived over the whole document
/// tree: the clone is equal to the original.
pub assume_specification[ <serde_json::Value as Clone>::clone ](v: &serde_json::Value) -> (r:
    serde_json::Value)
    ensures
        r == *v,
;

/// JSON-RPC error code: malformed JSON.
pub const PARSE_ERROR: i32 = -32700;

/// JSON-RPC error code: not a valid request object.
pub const INVALID_REQUEST: i32 = -32600;

/// JSON-RPC error code: method does not exist.
pub const METHOD_NOT_FOUND: i32 = -32601;

/// JSON-RPC error code: invalid method parameters.
pub const INVALID_PARAMS: i32 = -32602;

/// JSON-RPC error code: internal server error.
pub const INTERNAL_ERROR: i32 = -32603;

/// Protocol-extension error code: resource not found.
pub const RESOURCE_NOT_FOUND: i32 = -32002;

/// The protocol revision this client speaks.
pub fn default_protocol_version() -> (r: String)
    ensures
        r@ == "2025-11-25"@,
{
    "2025-11-25".to_owned()
}

/// Resources capability flags.
#[derive(Debug, Clone, Copy, PartialEq, Eq, Structural)]
pub struct ResourcesCapability {
    /// Whether resource subscriptions are supported.
    pub subscribe: bool,
    /// Whether `resources/list_changed` notifications are supported.
    pub list_changed: bool,
}

impl Default for ResourcesCapability {
    /// Both flags off.
    fn default() -> (r: Self)
        ensures
            !r.subscribe && !r.list_changed,
    {
        ResourcesCapability { subscribe: false, list_changed: false }
    }
}

/// Prompts capability flags.
#[derive(Debug, Clone, Copy, PartialEq, Eq, Structural)]
pub struct PromptsCapability {
    /// Whether `prompts/list_changed` notifications are supported.
    pub list_changed: bool,
}

impl Default for PromptsCapability {
    /// The flag off.
    fn default() -> (r: Self)
        ensures
            !r.list_changed,
    {
        PromptsCapability { list_changed: false }
    }
}

/// Tools capability flags.
#[derive(Debug, Clone, Copy, PartialEq, Eq, Structural)]
pub struct ToolsCapability {
    /// Whether `tools/list_changed` notifications are supported.
    pub list_changed: bool,
}

impl Default for ToolsCapability {
    /// The flag off.
    fn default() -> (r: Self)
        ensures
            !r.list_changed,
    {
        ToolsCapability { list_changed: false }
    }
}

/// One side's capability declaration: a present field offers the feature
/// group, with its flags.
#[derive(Debug, Clone, Copy, PartialEq, Eq)]
pub struct MCPCapability {
    /// Resource listing and reading.
    pub resources: Option<ResourcesCapability>,
    /// Prompt listing and retrieval.
    pub prompts: Option<PromptsCapability>,
    /// Tool listing and invocation.
    pub tools: Option<ToolsCapability>,
    /// Whether log forwarding is offered.
    pub logging: bool,
}

impl Default for MCPCapability {
    /// The client's declaration: every feature group offered with default
    /// flags, logging off.
    fn default() -> (r: Self)
        ensures
            r.resources == Some(ResourcesCapability { subscribe: false, list_changed: false }),
            r.prompts == Some(PromptsCapability { list_changed: false }),
            r.tools == Some(ToolsCapability { list_changed: false }),
            !r.logging,
    {
        MCPCapability {
            resources: Some(ResourcesCapability { subscribe: false, list_changed: false }),
            prompts: Some(PromptsCapability { list_changed: false }),
            tools: Some(ToolsCapability { list_changed: false }),
            logging: false,
        }
    }
}

/// The field-wise AND of two capability declarations: a feature group is
/// negotiated only when both sides offer it, and each flag only when both
/// sides set it.
pub open spec fn negotiated(client: MCPCapability, server: MCPCapability) -> MCPCapability {
    MCPCapability {
        resources: if client.resources is Some && server.resources is Some {
            Some(
                ResourcesCapability {
                    subscribe: client.resources->0.subscribe && server.resources->0.subscribe,
                    list_changed: client.resources->0.list_changed
                        && server.resources->0.list_changed,
                },
            )
        } else {
            None
        },
        prompts: if client.prompts is Some && server.prompts is Some {
            Some(
                PromptsCapability {
                    list_changed: client.prompts->0.list_changed && server.prompts->0.list_changed,
                },
            )
        } else {
            None
        },
        tools: if client.tools is Some && server.tools is Some {
            Some(
                ToolsCapability {
                    list_changed: client.tools->0.list_changed && server.tools->0.list_changed,
                },
            )
        } else {
            None
        },
        logging: client.logging && server.logging,
    }
}

/// Computes the negotiated capability set.
pub fn negotiate_capabilities(client: &MCPCapability, server: &MCPCapability) -> (r: MCPCapability)
    ensures
        r == negotiated(*client, *server),
{
    MCPCapability {
        resources: match (&client.resources, &server.resources) {
            (Some(c), Some(s)) => Some(
                ResourcesCapability {
                    subscribe: c.subscribe && s.subscribe,
                    list_changed: c.list_changed && s.list_changed,
                },
            ),
            _ => None,
        },
        prompts: match (&client.prompts, &server.prompts) {
            (Some(c), Some(s)) => Some(
                PromptsCapability { list_changed: c.list_changed && s.list_changed },
            ),
            _ => None,
        },
        tools: match (&client.tools, &server.tools) {
            (Some(c), Some(s)) => Some(
                ToolsCapability { list_changed: c.list_changed && s.list_changed },
            ),
            _ => None,
        },
        logging: client.logging && server.logging,
    }
}

/// Identity of one protocol party.
#[derive(Debug, Clone)]
pub struct MCPServerInfo {
    /// Display name.
    pub name: String,
    /// Version string.
    pub version: String,
    /// Optional description.
    pub description: Option<String>,
    /// Optional vendor.
    pub vendor: Option<String>,
}

/// JSON-RPC error object.
#[derive(Debug, Clone)]
pub struct MCPError {
    /// One of the fixed error codes.
    pub code: i32,
    /// Human-readable message.
    pub message: String,
    /// Optional extra data, forwarded verbatim.
    pub data: Option<serde_json::Value>,
}

impl MCPError {
    /// A `ParseError` with the given message.
    pub fn parse_error(message: String) -> (r: Self)
        ensures
            r.code == PARSE_ERROR,
            r.message == message,
            r.data is None,
    {
        MCPError { code: PARSE_ERROR, message, data: None }
    }

    /// An `InvalidRequest` with the given message.
    pub fn invalid_request(message: String) -> (r: Self)
        ensures
            r.code == INVALID_REQUEST,
            r.message == message,
            r.data is None,
    {
        MCPError { code: INVALID_REQUEST, message, data: None }
    }

    /// A `MethodNotFound` naming the method that was asked for.
    pub fn method_not_found(method: &str) -> (r: Self)
        ensures
            r.code == METHOD_NOT_FOUND,
            r.message@ == "Method not found: "@ + method@,
            r.data is None,
    {
        MCPError {
            code: METHOD_NOT_FOUND,
            message: String::from_str("Method not found: ").concat(method),
            data: None,
        }
    }

    /// An `InvalidParams` with the given message.
    pub fn invalid_params(message: String) -> (r: Self)
        ensures
            r.code == INVALID_PARAMS,
            r.message == message,
            r.data is None,
    {
        MCPError { code: INVALID_PARAMS, message, data: None }
    }

    /// An `InternalError` with the given message.
    pub fn internal_error(message: String) -> (r: Self)
        ensures
            r.code == INTERNAL_ERROR,
            r.message == message,
            r.data is None,
    {
        MCPError { code: INTERNAL_ERROR, message, data: None }
    }
}

/// A request: an id, a method, and opaque parameters.
#[derive(Debug)]
pub struct MCPRequest {
    /// Always the JSON-RPC version marker `2.0`.
    pub jsonrpc: String,
    /// Session-unique request id.
    pub id: u64,
    /// Method name.
    pub method: String,
    /// Parameters, forwarded verbatim.
    pub params: Option<serde_json::Value>,
}

impl MCPRequest {
    /// A request carrying the version marker.
    pub fn new(id: u64, method: String, params: Option<serde_json::Value>) -> (r: Self)
        ensures
            r.jsonrpc@ == "2.0"@,
            r.id == id,
            r.method == method,
            r.params == params,
    {
        MCPRequest { jsonrpc: "2.0".to_owned(), id, method, params }
    }
}

/// A response: the id of the request it answers, and a result or an error.
#[derive(Debug)]
pub struct MCPResponse {
    /// Always the JSON-RPC version marker `2.0`.
    pub jsonrpc: String,
    /// Id of the answered request.
    pub id: u64,
    /// The result, on success.
    pub result: Option<serde_json::Value>,
    /// The error, on failure.
    pub error: Option<MCPError>,
}

impl MCPResponse {
    /// A successful response.
    pub fn success(id: u64, result: serde_json::Value) -> (r: Self)
        ensures
            r.jsonrpc@ == "2.0"@,
            r.id == id,
            r.result == Some(result),
            r.error is None,
    {
        MCPResponse { jsonrpc: "2.0".to_owned(), id, result: Some(result), error: None }
    }

    /// An error response.
    pub fn error(id: u64, error: MCPError) -> (r: Self)
        ensures
            r.jsonrpc@ == "2.0"@,
            r.id == id,
            r.result is None,
            r.error == Some(error),
    {
        MCPResponse { jsonrpc: "2.0".to_owned(), id, result: None, error: Some(error) }
    }
}

/// A notification: a method without an id; no response is expected.
#[derive(Debug)]
pub struct MCPNotification {
    /// Always the JSON-RPC version marker `2.0`.
    pub jsonrpc: String,
    /// Method name.
    pub method: String,
    /// Parameters, forwarded verbatim.
    pub params: Option<serde_json::Value>,
}

impl MCPNotification {
    /// A notification carrying the version marker.
    pub fn new(method: String, params: Option<serde_json::Value>) -> (r: Self)
        ensures
            r.jsonrpc@ == "2.0"@,
            r.method == method,
            r.params == params,
    {
        MCPNotification { jsonrpc: "2.0".to_owned(), method, params }
    }
}

/// A classified protocol message.
#[derive(Debug)]
pub enum MCPMessage {
    /// Carries an id and a method.
    Request(MCPRequest),
    /// Carries an id and a result or error.
    Response(MCPResponse),
    /// Carries a method and no id.
    Notification(MCPNotification),
}

/// An incoming message before classification: which fields were present on
/// the wire.
#[derive(Debug)]
pub struct RawMessage {
    /// The version marker as received.
    pub jsonrpc: String,
    /// The id field, when present.
    pub id: Option<u64>,
    /// The method field, when present.
    pub method: Option<String>,
    /// The params field, when present.
    pub params: Option<serde_json::Value>,
    /// The result field, when present.
    pub result: Option<serde_json::Value>,
    /// The error field, when present.
    pub error: Option<MCPError>,
}

/// Classifies a raw message by field presence, in priority order: an id
/// together with a method makes a request, an id alone a response, a method
/// alone a notification; neither is an invalid request.
pub fn classify_message(msg: RawMessage) -> (r: Result<MCPMessage, MCPError>)
    ensures
        msg.id is Some && msg.method is Some ==> (r matches Ok(MCPMessage::Request(q)) && q.jsonrpc
            == msg.jsonrpc && q.id == msg.id->0 && q.method == msg.method->0 && q.params
            == msg.params),
        msg.id is Some && msg.method is None ==> (r matches Ok(MCPMessage::Response(p)) && p.jsonrpc
            == msg.jsonrpc && p.id == msg.id->0 && p.result == msg.result && p.error == msg.error),
        msg.id is None && msg.method is Some ==> (r matches Ok(MCPMessage::Notification(n))
            && n.jsonrpc == msg.jsonrpc && n.method == msg.method->0 && n.params == msg.params),
        msg.id is None && msg.method is None ==> (r matches Err(e) && e.code == INVALID_REQUEST),
{
    let RawMessage { jsonrpc, id, method, params, result, error } = msg;
    match (id, method) {
        (Some(id), Some(method)) => Ok(
            MCPMessage::Request(MCPRequest { jsonrpc, id, method, params }),
        ),
        (Some(id), None) => Ok(MCPMessage::Response(MCPResponse { jsonrpc, id, result, error })),
        (None, Some(method)) => Ok(
            MCPMessage::Notification(MCPNotification { jsonrpc, method, params }),
        ),
        (None, None) => Err(
            MCPError::invalid_request(
                String::from_str("message has neither an id nor a method"),
            ),
        ),
    }
}


/// Icon for UI display.
#[derive(Debug, Clone)]
pub struct MCPResourceIcon {
    /// Icon source URI.
    pub src: String,
    /// MIME type, when declared.
    pub mime_type: Option<String>,
    /// Declared sizes, forwarded verbatim.
    pub sizes: Option<serde_json::Value>,
}

/// Annotations on resources and templates.
#[derive(Debug, Clone)]
pub struct MCPAnnotations {
    /// Intended audiences.
    pub audience: Option<Vec<String>>,
    /// Last-modified timestamp, as declared by the server.
    pub last_modified: Option<String>,
}

/// Content Security Policy metadata a server attaches to a UI resource:
/// domain allow-lists, opaque to this core and enforced outside it.
#[derive(Debug, Clone)]
pub struct McpUiResourceCsp {
    /// Origins for network requests.
    pub connect_domains: Option<Vec<String>>,
    /// Origins for static resources.
    pub resource_domains: Option<Vec<String>>,
    /// Origins for nested frames.
    pub frame_domains: Option<Vec<String>>,
    /// Allowed base URIs for the document.
    pub base_uri_domains: Option<Vec<String>>,
}

/// Sandbox permissions a UI resource requests, forwarded verbatim.
#[derive(Debug, Clone)]
pub struct McpUiResourcePermissions {
    /// Camera access request.
    pub camera: Option<serde_json::Value>,
    /// Microphone access request.
    pub microphone: Option<serde_json::Value>,
    /// Geolocation access request.
    pub geolocation: Option<serde_json::Value>,
    /// Clipboard-write access request.
    pub clipboard_write: Option<serde_json::Value>,
}

/// UI metadata of a resource: CSP and permission requests.
#[derive(Debug, Clone)]
pub struct McpUiMeta {
    /// Content Security Policy descriptor.
    pub csp: Option<McpUiResourceCsp>,
    /// Sandbox permission requests.
    pub permissions: Option<McpUiResourcePermissions>,
}

/// The metadata field of a resource content block.
#[derive(Debug, Clone)]
pub struct MCPResourceContentMeta {
    /// UI metadata, when present.
    pub ui: Option<McpUiMeta>,
}

/// A resource definition.
#[derive(Debug, Clone)]
pub struct MCPResource {
    /// Resource URI.
    pub uri: String,
    /// Machine name.
    pub name: String,
    /// Human-readable title.
    pub title: Option<String>,
    /// Description.
    pub description: Option<String>,
    /// MIME type.
    pub mime_type: Option<String>,
    /// Icons for UI display.
    pub icons: Option<Vec<MCPResourceIcon>>,
    /// Size in bytes, when known.
    pub size: Option<u64>,
    /// Annotations.
    pub annotations: Option<MCPAnnotations>,
    /// Additional metadata, forwarded verbatim.
    pub metadata: Option<serde_json::Value>,
}

/// One block of resource content: text or base64 binary, with optional
/// metadata.
#[derive(Debug, Clone)]
pub struct MCPResourceContent {
    /// The resource's URI.
    pub uri: String,
    /// Text content, when textual.
    pub content: Option<String>,
    /// Base64-encoded binary content, when binary.
    pub blob: Option<String>,
    /// MIME type.
    pub mime_type: Option<String>,
    /// Annotations.
    pub annotations: Option<MCPAnnotations>,
    /// Metadata carrying UI CSP and permissions.
    pub meta: Option<MCPResourceContentMeta>,
}

/// A prompt argument declaration.
#[derive(Debug, Clone)]
pub struct MCPPromptArgument {
    /// Argument name.
    pub name: String,
    /// Description.
    pub description: Option<String>,
    /// Whether the argument must be supplied.
    pub required: bool,
}

/// A prompt definition.
#[derive(Debug, Clone)]
pub struct MCPPrompt {
    /// Machine name.
    pub name: String,
    /// Human-readable title.
    pub title: Option<String>,
    /// Description.
    pub description: Option<String>,
    /// Declared arguments.
    pub arguments: Option<Vec<MCPPromptArgument>>,
    /// Icons for UI display.
    pub icons: Option<Vec<MCPResourceIcon>>,
}

/// A structured content block of a prompt message.
#[derive(Debug, Clone)]
pub enum MCPPromptMessageContentBlock {
    /// Plain text.
    Text {
        /// The text.
        text: String,
    },
    /// Base64 image data.
    Image {
        /// The encoded data.
        data: String,
        /// Image MIME type.
        mime_type: String,
    },
    /// Base64 audio data.
    Audio {
        /// The encoded data.
        data: String,
        /// Audio MIME type.
        mime_type: String,
    },
    /// An embedded resource.
    Resource {
        /// The embedded content.
        resource: MCPResourceContent,
    },
}

/// Content of a prompt message: a structured block, or a bare string from
/// older servers, kept as a degenerate text variant.
#[derive(Debug, Clone)]
pub enum MCPPromptMessageContent {
    /// Legacy plain-string content.
    Plain(String),
    /// Structured content block.
    Block(MCPPromptMessageContentBlock),
}

/// One message of a prompt.
#[derive(Debug, Clone)]
pub struct MCPPromptMessage {
    /// The speaking role: `system`, `user`, `assistant`, or another label.
    pub role: String,
    /// The message content.
    pub content: MCPPromptMessageContent,
}

/// A retrieved prompt: its name and messages.
#[derive(Debug, Clone)]
pub struct MCPPromptContent {
    /// The prompt's name.
    pub name: String,
    /// Its messages, in order.
    pub messages: Vec<MCPPromptMessage>,
}

/// UI metadata of a tool.
#[derive(Debug, Clone)]
pub struct MCPToolUIMeta {
    /// URI of the tool's interactive UI resource, when it declares one.
    pub resource_uri: Option<String>,
}

/// Tool metadata.
#[derive(Debug, Clone)]
pub struct MCPToolMeta {
    /// UI metadata, when present.
    pub ui: Option<MCPToolUIMeta>,
}

/// Behavior hints on a tool; untrusted input from the server.
#[derive(Debug, Clone)]
pub struct MCPToolAnnotations {
    /// Display title.
    pub title: Option<String>,
    /// Whether the tool claims to be read-only.
    pub read_only_hint: Option<bool>,
    /// Whether the tool claims to be destructive.
    pub destructive_hint: Option<bool>,
}

/// A tool definition.
#[derive(Debug, Clone)]
pub struct MCPTool {
    /// Machine name.
    pub name: String,
    /// Human-readable title.
    pub title: Option<String>,
    /// Description.
    pub description: Option<String>,
    /// Input JSON schema, forwarded verbatim.
    pub input_schema: serde_json::Value,
    /// Output JSON schema, forwarded verbatim.
    pub output_schema: Option<serde_json::Value>,
    /// Icons for UI display.
    pub icons: Option<Vec<MCPResourceIcon>>,
    /// Behavior hints.
    pub annotations: Option<MCPToolAnnotations>,
    /// Tool metadata, including the UI resource URI.
    pub meta: Option<MCPToolMeta>,
}

/// One block of a tool result.
#[derive(Debug, Clone)]
pub enum MCPToolResultContent {
    /// Plain text.
    Text {
        /// The text.
        text: String,
    },
    /// Base64 image data.
    Image {
        /// The encoded data.
        data: String,
        /// Image MIME type.
        mime_type: String,
    },
    /// Base64 audio data.
    Audio {
        /// The encoded data.
        data: String,
        /// Audio MIME type.
        mime_type: String,
    },
    /// A link to a resource the client may read.
    ResourceLink {
        /// The linked URI.
        uri: String,
        /// Display name.
        name: Option<String>,
        /// Description.
        description: Option<String>,
        /// MIME type.
        mime_type: Option<String>,
    },
    /// An embedded resource.
    Resource {
        /// The embedded content.
        resource: MCPResourceContent,
    },
}

/// Result of a tool call.
#[derive(Debug, Clone)]
pub struct MCPToolResult {
    /// Result content blocks.
    pub content: Option<Vec<MCPToolResultContent>>,
    /// Whether the server reports the call as failed.
    pub is_error: bool,
    /// Structured data for the tool's UI, forwarded verbatim.
    pub structured_content: Option<serde_json::Value>,
}

/// Parameters of `initialize`.
#[derive(Debug, Clone)]
pub struct InitializeParams {
    /// The protocol revision the client asks for.
    pub protocol_version: String,
    /// The client's capability declaration.
    pub capabilities: MCPCapability,
    /// The client's identity.
    pub client_info: MCPServerInfo,
}

/// Result of `initialize`.
#[derive(Debug, Clone)]
pub struct InitializeResult {
    /// The protocol revision the server answers with.
    pub protocol_version: String,
    /// The server's capability declaration.
    pub capabilities: MCPCapability,
    /// The server's identity.
    pub server_info: MCPServerInfo,
}

/// Parameters of `resources/list`.
#[derive(Debug, Clone)]
pub struct ResourcesListParams {
    /// Pagination cursor.
    pub cursor: Option<String>,
}

/// Result of `resources/list`.
#[derive(Debug, Clone)]
pub struct ResourcesListResult {
    /// The listed resources.
    pub resources: Vec<MCPResource>,
    /// Cursor for the next page, when any.
    pub next_cursor: Option<String>,
}

/// Parameters of `resources/read`.
#[derive(Debug, Clone)]
pub struct ResourcesReadParams {
    /// URI of the resource to read.
    pub uri: String,
}

/// Result of `resources/read`.
#[derive(Debug, Clone)]
pub struct ResourcesReadResult {
    /// The content blocks of the resource.
    pub contents: Vec<MCPResourceContent>,
}

/// Parameters of `prompts/list`.
#[derive(Debug, Clone)]
pub struct PromptsListParams {
    /// Pagination cursor.
    pub cursor: Option<String>,
}

/// Result of `prompts/list`.
#[derive(Debug, Clone)]
pub struct PromptsListResult {
    /// The listed prompts.
    pub prompts: Vec<MCPPrompt>,
    /// Cursor for the next page, when any.
    pub next_cursor: Option<String>,
}

/// Parameters of `prompts/get`.
#[derive(Debug, Clone)]
pub struct PromptsGetParams {
    /// The prompt's name.
    pub name: String,
    /// Argument values, as name/value pairs.
    pub arguments: Option<Vec<(String, String)>>,
}

/// Result of `prompts/get`.
#[derive(Debug, Clone)]
pub struct PromptsGetResult {
    /// Description, when declared.
    pub description: Option<String>,
    /// The prompt's messages.
    pub messages: Vec<MCPPromptMessage>,
}

/// Parameters of `tools/list`.
#[derive(Debug, Clone)]
pub struct ToolsListParams {
    /// Pagination cursor.
    pub cursor: Option<String>,
}

/// Result of `tools/list`.
#[derive(Debug, Clone)]
pub struct ToolsListResult {
    /// The listed tools.
    pub tools: Vec<MCPTool>,
    /// Cursor for the next page, when any.
    pub next_cursor: Option<String>,
}

/// Parameters of `tools/call`.
#[derive(Debug, Clone)]
pub struct ToolsCallParams {
    /// The tool's name.
    pub name: String,
    /// Arguments, forwarded verbatim.
    pub arguments: Option<serde_json::Value>,
}

/// Parameters of `ping`: none.
#[derive(Debug, Clone)]
pub struct PingParams {}

/// Result of `ping`: none.
#[derive(Debug, Clone)]
pub struct PingResult {}

/// `s` with every occurrence of `pat` replaced by `val`, scanning left to
/// right without rescanning replacements; with an empty pattern, `s` itself.
pub open spec fn replace_all(s: Seq<char>, pat: Seq<char>, val: Seq<char>) -> Seq<char>
    decreases s.len(),
{
    if pat.len() == 0 || s.len() < pat.len() {
        s
    } else if s.take(pat.len() as int) == pat {
        val + replace_all(s.skip(pat.len() as int), pat, val)
    } else {
        seq![s[0]] + replace_all(s.skip(1), pat, val)
    }
}

/// Replaces every occurrence of `pat` in `s` by `val`.
pub fn replace_all_str(s: &str, pat: &str, val: &str) -> (r: String)
    ensures
        r@ == replace_all(s@, pat@, val@),
{
    let slen: usize = s.unicode_len();
    let plen: usize = pat.unicode_len();
    if plen == 0 {
        return s.to_owned();
    }
    let mut out: String = String::new();
    let mut i: usize = 0;
    proof {
        assert(s@.skip(0) =~= s@);
    }
    while i < slen
        invariant
            slen == s@.len(),
            plen == pat@.len(),
            plen >= 1,
            i <= slen,
            replace_all(s@, pat@, val@) == out@ + replace_all(s@.skip(i as int), pat@, val@),
        decreases slen - i,
    {
        let ghost rem = s@.skip(i as int);
        proof {
            assert(rem.len() == slen - i);
            assert(rem[0] == s@[i as int]);
        }
        let is_match: bool = if plen <= slen - i {
            let seg: &str = s.substring_char(i, i + plen);
            let eq = crate::text::str_eq(seg, pat);
            proof {
                assert(rem.take(plen as int) =~= s@.subrange(i as int, i + plen));
            }
            eq
        } else {
            false
        };
        if is_match {
            let ghost prev = out@;
            out.append(val);
            proof {
                assert(rem.skip(plen as int) =~= s@.skip(i + plen));
                assert(replace_all(rem, pat@, val@) == val@ + replace_all(
                    s@.skip(i + plen),
                    pat@,
                    val@,
                ));
                assert((prev + val@) + replace_all(s@.skip(i + plen), pat@, val@) =~= prev + (val@
                    + replace_all(s@.skip(i + plen), pat@, val@)));
            }
            i = i + plen;
        } else {
            let c = s.get_char(i);
            let ghost prev = out@;
            crate::text::push_char(&mut out, c);
            proof {
                assert(rem.skip(1) =~= s@.skip(i + 1));
                if rem.len() < plen as int {
                    assert(replace_all(rem, pat@, val@) == rem);
                    assert(replace_all(s@.skip(i + 1), pat@, val@) == s@.skip(i + 1));
                    assert(rem =~= seq![rem[0]] + rem.skip(1));
                } else {
                    assert(rem.take(plen as int) != pat@);
                    assert(replace_all(rem, pat@, val@) == seq![rem[0]] + replace_all(
                        s@.skip(i + 1),
                        pat@,
                        val@,
                    ));
                }
                assert((prev + seq![c]) + replace_all(s@.skip(i + 1), pat@, val@) =~= prev + (seq![
                    c,
                ] + replace_all(s@.skip(i + 1), pat@, val@)));
            }
            i = i + 1;
        }
    }
    proof {
        assert(s@.skip(slen as int) =~= Seq::<char>::empty());
        assert(out@ + Seq::<char>::empty() =~= out@);
    }
    out
}

/// The literal token that stands for an argument in prompt text.
pub open spec fn placeholder_of(key: Seq<char>) -> Seq<char> {
    "{{"@ + key + "}}"@
}

/// `t` after substituting each argument in order: every `{{key}}` token is
/// replaced by the argument's value.
pub open spec fn substituted_seq(t: Seq<char>, args: Seq<(String, String)>) -> Seq<char>
    decreases args.len(),
{
    if args.len() == 0 {
        t
    } else {
        substituted_seq(
            replace_all(t, placeholder_of(args[0].0@), args[0].1@),
            args.drop_first(),
        )
    }
}

/// Applies every argument's placeholder substitution to `text`, in order.
pub fn substitute_text(text: &str, arguments: &Vec<(String, String)>) -> (r: String)
    ensures
        r@ == substituted_seq(text@, arguments@),
{
    let n: usize = arguments.len();
    let mut cur: String = text.to_owned();
    let mut i: usize = 0;
    proof {
        assert(arguments@.skip(0) =~= arguments@);
    }
    while i < n
        invariant
            n == arguments@.len(),
            i <= n,
            substituted_seq(cur@, arguments@.skip(i as int)) == substituted_seq(text@, arguments@),
        decreases n - i,
    {
        let ghost rest = arguments@.skip(i as int);
        proof {
            assert(rest.len() > 0);
            assert(rest[0] == arguments@[i as int]);
            assert(rest.drop_first() =~= arguments@.skip(i + 1));
        }
        let key: &String = &arguments[i].0;
        let value: &String = &arguments[i].1;
        let pattern: String = String::from_str("{{").concat(key.as_str()).concat("}}");
        assert(pattern@ == placeholder_of(key@));
        cur = replace_all_str(cur.as_str(), pattern.as_str(), value.as_str());
        i = i + 1;
    }
    cur
}

impl MCPPromptMessageContent {
    /// The displayable text of this content: the text itself for textual
    /// variants, a bracketed placeholder naming the media type otherwise.
    pub fn text_or_placeholder(&self) -> (r: String)
        ensures
            match self {
                MCPPromptMessageContent::Plain(s) => r@ == s@,
                MCPPromptMessageContent::Block(b) => match b {
                    MCPPromptMessageContentBlock::Text { text } => r@ == text@,
                    MCPPromptMessageContentBlock::Image { data: _, mime_type } => r@ == "[Image: "@
                        + mime_type@ + "]"@,
                    MCPPromptMessageContentBlock::Audio { data: _, mime_type } => r@ == "[Audio: "@
                        + mime_type@ + "]"@,
                    MCPPromptMessageContentBlock::Resource { resource } => r@ == "[Resource: "@
                        + resource.uri@ + "]"@,
                },
            },
    {
        match self {
            MCPPromptMessageContent::Plain(s) => s.clone(),
            MCPPromptMessageContent::Block(MCPPromptMessageContentBlock::Text { text }) => {
                text.clone()
            },
            MCPPromptMessageContent::Block(
                MCPPromptMessageContentBlock::Image { data: _, mime_type },
            ) => String::from_str("[Image: ").concat(mime_type.as_str()).concat("]"),
            MCPPromptMessageContent::Block(
                MCPPromptMessageContentBlock::Audio { data: _, mime_type },
            ) => String::from_str("[Audio: ").concat(mime_type.as_str()).concat("]"),
            MCPPromptMessageContent::Block(MCPPromptMessageContentBlock::Resource { resource }) => {
                String::from_str("[Resource: ").concat(resource.uri.as_str()).concat("]")
            },
        }
    }

    /// Substitutes argument placeholders in place; only text-bearing variants
    /// change.
    pub fn substitute_placeholders(&mut self, arguments: &Vec<(String, String)>)
        ensures
            *old(self) matches MCPPromptMessageContent::Plain(s) ==> (*final(self)
                matches MCPPromptMessageContent::Plain(s2) && s2@ == substituted_seq(
                s@,
                arguments@,
            )),
            *old(self) matches MCPPromptMessageContent::Block(
                MCPPromptMessageContentBlock::Text { text },
            ) ==> (*final(self) matches MCPPromptMessageContent::Block(
                MCPPromptMessageContentBlock::Text { text: t2 },
            ) && t2@ == substituted_seq(text@, arguments@)),
            !(*old(self) matches MCPPromptMessageContent::Plain(_)) && !(*old(self)
                matches MCPPromptMessageContent::Block(
                MCPPromptMessageContentBlock::Text { .. },
            )) ==> *final(self) == *old(self),
    {
        match self {
            MCPPromptMessageContent::Plain(s) => {
                let ns = substitute_text(s.as_str(), arguments);
                *s = ns;
            },
            MCPPromptMessageContent::Block(MCPPromptMessageContentBlock::Text { text }) => {
                let nt = substitute_text(text.as_str(), arguments);
                *text = nt;
            },
            _ => {},
        }
    }
}

} // verus!
