//! One live session with a single server: handshake, negotiated
//! capabilities, request/response correlation and typed operations.
//!
//! The transport (a spawned process or a dialed endpoint) lives outside the
//! crate. The connection is a state machine over plain data: callers report
//! transport events and responses, and receive the requests to send.

use vstd::prelude::*;
use crate::error::McpServiceError;
use crate::protocol::{
    negotiated, InitializeParams, InitializeResult, MCPCapability, MCPError, MCPPrompt,
    MCPResource, MCPServerInfo, MCPTool, PingParams, PromptsGetParams, PromptsListParams,
    ResourcesListParams, ResourcesReadParams, ToolsCallParams, ToolsListParams,
};
use crate::text::str_eq;

verus! {

/// Where a session stands.
#[derive(Debug, Clone, Copy, PartialEq, Eq, Structural)]
pub enum ConnectionState {
    /// No transport yet.
    Disconnected,
    /// Transport up, handshake in flight.
    Initializing,
    /// Handshake done; typed operations are accepted.
    Ready,
    /// Explicitly stopped; terminal until a restart.
    Closed,
    /// Transport or protocol failure; terminal until a restart.
    Failed,
}

/// What a pending request was asking for.
#[derive(Debug, Clone, Copy, PartialEq, Eq, Structural)]
pub enum RequestKind {
    /// The handshake request.
    Initialize,
    /// `tools/list`.
    ToolsList,
    /// `tools/call`.
    ToolsCall,
    /// `resources/list`.
    ResourcesList,
    /// `resources/read`.
    ResourcesRead,
    /// `prompts/list`.
    PromptsList,
    /// `prompts/get`.
    PromptsGet,
    /// `ping`.
    Ping,
}

/// Typed parameters of a client-issued request.
#[derive(Debug)]
pub enum RequestPayload {
    /// The handshake parameters.
    Initialize(InitializeParams),
    /// `tools/list` parameters.
    ToolsList(ToolsListParams),
    /// `tools/call` parameters.
    ToolsCall(ToolsCallParams),
    /// `resources/list` parameters.
    ResourcesList(ResourcesListParams),
    /// `resources/read` parameters.
    ResourcesRead(ResourcesReadParams),
    /// `prompts/list` parameters.
    PromptsList(PromptsListParams),
    /// `prompts/get` parameters.
    PromptsGet(PromptsGetParams),
    /// `ping` parameters.
    Ping(PingParams),
}

/// A request the caller must serialize and send on the transport.
#[derive(Debug)]
pub struct OutboundRequest {
    /// Always the JSON-RPC version marker `2.0`.
    pub jsonrpc: String,
    /// The session-unique id assigned to this request.
    pub id: u64,
    /// Method name.
    pub method: String,
    /// Typed parameters.
    pub params: RequestPayload,
}

/// One live session with a server.
#[derive(Debug)]
pub struct Connection {
    /// Where the session stands.
    pub state: ConnectionState,
    /// The protocol revision this client asks for.
    pub client_version: String,
    /// The client's capability declaration.
    pub client_capabilities: MCPCapability,
    /// The negotiated protocol revision, once Ready.
    pub protocol_version: Option<String>,
    /// The negotiated capability set, once Ready.
    pub capabilities: Option<MCPCapability>,
    /// The next request id to assign.
    pub next_id: u64,
    /// In-flight requests: id and what each was asking for.
    pub pending: Vec<(u64, RequestKind)>,
    /// How many responses arrived with an id that matched no pending request.
    pub anomalies: u64,
    /// Cached `tools/list` result, invalidated by its list-changed
    /// notification.
    pub cached_tools: Option<Vec<MCPTool>>,
    /// Cached `resources/list` result, invalidated by its list-changed
    /// notification.
    pub cached_resources: Option<Vec<MCPResource>>,
    /// Cached `prompts/list` result, invalidated by its list-changed
    /// notification.
    pub cached_prompts: Option<Vec<MCPPrompt>>,
}

/// Everything except the pending table, the id counter and the anomaly count
/// is the same in `a` and `b`.
pub open spec fn same_core(a: Connection, b: Connection) -> bool {
    &&& b.state == a.state
    &&& b.client_version == a.client_version
    &&& b.client_capabilities == a.client_capabilities
    &&& b.protocol_version == a.protocol_version
    &&& b.capabilities == a.capabilities
    &&& b.cached_tools == a.cached_tools
    &&& b.cached_resources == a.cached_resources
    &&& b.cached_prompts == a.cached_prompts
}

/// `b` is `a` after registering one request of the given kind: the fresh id
/// was appended to the pending table and the counter advanced; nothing else
/// moved.
pub open spec fn enqueued(a: Connection, b: Connection, kind: RequestKind) -> bool {
    &&& same_core(a, b)
    &&& b.anomalies == a.anomalies
    &&& b.pending@ == a.pending@.push((a.next_id, kind))
    &&& b.next_id == a.next_id + 1
}

impl Connection {
    /// Internal consistency: pending ids are distinct and below the counter,
    /// and a Ready session has a negotiated capability set.
    pub open spec fn wf(self) -> bool {
        &&& forall|i: int, j: int|
            0 <= i < j < self.pending@.len() ==> (#[trigger] self.pending@[i]).0 != (
            #[trigger] self.pending@[j]).0
        &&& forall|i: int|
            0 <= i < self.pending@.len() ==> (#[trigger] self.pending@[i]).0 < self.next_id
        &&& (self.state is Ready ==> self.capabilities is Some)
    }

    /// Whether some request with this id is in flight.
    pub open spec fn pending_has(self, id: u64) -> bool {
        exists|i: int| 0 <= i < self.pending@.len() && (#[trigger] self.pending@[i]).0 == id
    }

    /// Whether the negotiated capabilities admit tool operations.
    pub open spec fn tools_allowed(self) -> bool {
        self.capabilities matches Some(c) && c.tools is Some
    }

    /// Whether the negotiated capabilities admit resource operations.
    pub open spec fn resources_allowed(self) -> bool {
        self.capabilities matches Some(c) && c.resources is Some
    }

    /// Whether the negotiated capabilities admit prompt operations.
    pub open spec fn prompts_allowed(self) -> bool {
        self.capabilities matches Some(c) && c.prompts is Some
    }

    /// A fresh session in `Disconnected`, declaring the given protocol
    /// revision and capabilities.
    pub fn new(client_version: String, client_capabilities: MCPCapability) -> (r: Connection)
        ensures
            r.wf(),
            r.state is Disconnected,
            r.client_version == client_version,
            r.client_capabilities == client_capabilities,
            r.protocol_version is None,
            r.capabilities is None,
            r.next_id == 1,
            r.pending@.len() == 0,
            r.anomalies == 0,
            r.cached_tools is None,
            r.cached_resources is None,
            r.cached_prompts is None,
    {
        Connection {
            state: ConnectionState::Disconnected,
            client_version,
            client_capabilities,
            protocol_version: None,
            capabilities: None,
            next_id: 1,
            pending: Vec::new(),
            anomalies: 0,
            cached_tools: None,
            cached_resources: None,
            cached_prompts: None,
        }
    }

    /// Whether the session is Ready.
    pub fn is_ready(&self) -> (r: bool)
        ensures
            r == (self.state is Ready),
    {
        matches!(self.state, ConnectionState::Ready)
    }

    /// Registers one request and hands out its fresh id.
    fn enqueue(&mut self, kind: RequestKind) -> (id: u64)
        requires
            old(self).wf(),
            old(self).next_id < u64::MAX,
        ensures
            final(self).wf(),
            id == old(self).next_id,
            enqueued(*old(self), *final(self), kind),
    {
        let id = self.next_id;
        self.next_id = self.next_id + 1;
        self.pending.push((id, kind));
        proof {
            assert forall|i: int, j: int|
                0 <= i < j < self.pending@.len() implies (#[trigger] self.pending@[i]).0 != (
            #[trigger] self.pending@[j]).0 by {
                if j < self.pending@.len() - 1 {
                    assert(self.pending@[i] == old(self).pending@[i]);
                    assert(self.pending@[j] == old(self).pending@[j]);
                } else {
                    assert(self.pending@[i] == old(self).pending@[i]);
                    assert(old(self).pending@[i].0 < id);
                }
            }
        }
        id
    }

    /// Records that the transport came up and produces the handshake
    /// request. Valid only from `Disconnected`; the session moves to
    /// `Initializing`.
    pub fn begin_initialize(&mut self, client_info: MCPServerInfo) -> (r: Result<
        OutboundRequest,
        McpServiceError,
    >)
        requires
            old(self).wf(),
        ensures
            final(self).wf(),
            !(old(self).state is Disconnected) ==> (r matches Err(
                McpServiceError::ProtocolError(_),
            ) && *final(self) == *old(self)),
            old(self).state is Disconnected && old(self).next_id == u64::MAX ==> (r matches Err(
                McpServiceError::ProtocolError(_),
            ) && *final(self) == *old(self)),
            old(self).state is Disconnected && old(self).next_id < u64::MAX ==> (r matches Ok(q) && {
                &&& q.jsonrpc@ == "2.0"@
                &&& q.id == old(self).next_id
                &&& q.method@ == "initialize"@
                &&& q.params matches RequestPayload::Initialize(p) && p.protocol_version
                    == old(self).client_version && p.capabilities == old(self).client_capabilities
                    && p.client_info == client_info
                &&& final(self).state is Initializing
                &&& final(self).pending@ == old(self).pending@.push(
                    (old(self).next_id, RequestKind::Initialize),
                )
                &&& final(self).next_id == old(self).next_id + 1
                &&& final(self).client_version == old(self).client_version
                &&& final(self).client_capabilities == old(self).client_capabilities
                &&& final(self).capabilities == old(self).capabilities
                &&& final(self).protocol_version == old(self).protocol_version
                &&& final(self).anomalies == old(self).anomalies
                &&& final(self).cached_tools == old(self).cached_tools
                &&& final(self).cached_resources == old(self).cached_resources
                &&& final(self).cached_prompts == old(self).cached_prompts
            }),
    {
        match self.state {
            ConnectionState::Disconnected => {},
            _ => {
                return Err(
                    McpServiceError::ProtocolError(
                        String::from_str("transport already established"),
                    ),
                );
            },
        }
        if self.next_id == u64::MAX {
            return Err(McpServiceError::ProtocolError(String::from_str("request ids exhausted")));
        }
        self.state = ConnectionState::Initializing;
        let id = self.enqueue(RequestKind::Initialize);
        let params = InitializeParams {
            protocol_version: self.client_version.clone(),
            capabilities: self.client_capabilities,
            client_info,
        };
        Ok(
            OutboundRequest {
                jsonrpc: "2.0".to_owned(),
                id,
                method: "initialize".to_owned(),
                params: RequestPayload::Initialize(params),
            },
        )
    }

    /// Correlates a response id with the pending table. A matching id removes
    /// and returns its entry; an unmatched id changes nothing but the anomaly
    /// count — it is dropped, never fatal.
    pub fn accept_response_id(&mut self, id: u64) -> (r: Option<RequestKind>)
        requires
            old(self).wf(),
        ensures
            final(self).wf(),
            same_core(*old(self), *final(self)),
            final(self).next_id == old(self).next_id,
            old(self).pending_has(id) ==> (r matches Some(k) && (exists|i: int|
                0 <= i < old(self).pending@.len() && #[trigger] old(self).pending@[i] == (id, k)
                    && final(self).pending@ == old(self).pending@.remove(i))
                && final(self).anomalies == old(self).anomalies),
            !old(self).pending_has(id) ==> {
                &&& r is None
                &&& final(self).pending@ == old(self).pending@
                &&& final(self).anomalies == if old(self).anomalies < u64::MAX {
                    old(self).anomalies + 1
                } else {
                    old(self).anomalies as int
                }
            },
    {
        let n: usize = self.pending.len();
        let mut i: usize = 0;
        while i < n
            invariant
                self == old(self),
                old(self).wf(),
                n == self.pending@.len(),
                i <= n,
                forall|j: int| 0 <= j < i ==> (#[trigger] self.pending@[j]).0 != id,
            decreases n - i,
        {
            if self.pending[i].0 == id {
                let kind = self.pending[i].1;
                self.pending.remove(i);
                proof {
                    assert(old(self).pending@[i as int] == (id, kind));
                    assert forall|a: int, b: int|
                        0 <= a < b < self.pending@.len() implies (#[trigger] self.pending@[a]).0
                        != (#[trigger] self.pending@[b]).0 by {
                        let oa: int = if a < i { a } else { a + 1 };
                        let ob: int = if b < i { b } else { b + 1 };
                        assert(self.pending@[a] == old(self).pending@[oa]);
                        assert(self.pending@[b] == old(self).pending@[ob]);
                    }
                    assert forall|a: int|
                        0 <= a < self.pending@.len() implies (#[trigger] self.pending@[a]).0
                        < self.next_id by {
                        let oa: int = if a < i { a } else { a + 1 };
                        assert(self.pending@[a] == old(self).pending@[oa]);
                    }
                }
                return Some(kind);
            }
            i = i + 1;
        }
        proof {
            if old(self).pending_has(id) {
                let j = choose|j: int|
                    0 <= j < old(self).pending@.len() && (#[trigger] old(self).pending@[j]).0 == id;
                assert((self.pending@[j]).0 != id);
            }
        }
        if self.anomalies < u64::MAX {
            self.anomalies = self.anomalies + 1;
        }
        None
    }

    /// Releases the pending-table slot of a timed-out request, so its
    /// caller can be answered with a timeout error. Terminating whatever the
    /// transport is still doing is a best-effort secondary action that
    /// happens outside the crate; a late response for the released id is
    /// then dropped as an anomaly. Releasing an id that is not pending
    /// changes nothing.
    pub fn cancel_request(&mut self, id: u64) -> (r: Option<RequestKind>)
        requires
            old(self).wf(),
        ensures
            final(self).wf(),
            same_core(*old(self), *final(self)),
            final(self).next_id == old(self).next_id,
            final(self).anomalies == old(self).anomalies,
            old(self).pending_has(id) ==> (r matches Some(k) && (exists|i: int|
                0 <= i < old(self).pending@.len() && #[trigger] old(self).pending@[i] == (id, k)
                    && final(self).pending@ == old(self).pending@.remove(i))),
            !old(self).pending_has(id) ==> (r is None && final(self).pending@ == old(
                self,
            ).pending@),
    {
        let n: usize = self.pending.len();
        let mut i: usize = 0;
        while i < n
            invariant
                self == old(self),
                old(self).wf(),
                n == self.pending@.len(),
                i <= n,
                forall|j: int| 0 <= j < i ==> (#[trigger] self.pending@[j]).0 != id,
            decreases n - i,
        {
            if self.pending[i].0 == id {
                let kind = self.pending[i].1;
                self.pending.remove(i);
                proof {
                    assert(old(self).pending@[i as int] == (id, kind));
                    assert forall|a: int, b: int|
                        0 <= a < b < self.pending@.len() implies (#[trigger] self.pending@[a]).0
                        != (#[trigger] self.pending@[b]).0 by {
                        let oa: int = if a < i { a } else { a + 1 };
                        let ob: int = if b < i { b } else { b + 1 };
                        assert(self.pending@[a] == old(self).pending@[oa]);
                        assert(self.pending@[b] == old(self).pending@[ob]);
                    }
                    assert forall|a: int|
                        0 <= a < self.pending@.len() implies (#[trigger] self.pending@[a]).0
                        < self.next_id by {
                        let oa: int = if a < i { a } else { a + 1 };
                        assert(self.pending@[a] == old(self).pending@[oa]);
                    }
                }
                return Some(kind);
            }
            i = i + 1;
        }
        proof {
            if old(self).pending_has(id) {
                let j = choose|j: int|
                    0 <= j < old(self).pending@.len() && (#[trigger] old(self).pending@[j]).0 == id;
                assert((self.pending@[j]).0 != id);
            }
        }
        None
    }

    /// Finishes the handshake with the server's `initialize` result or
    /// error. Success with the expected protocol revision makes the session
    /// Ready with the intersected capabilities; an unsupported revision or a
    /// handshake error makes it Failed, with the pending table cleared.
    pub fn complete_initialize(&mut self, outcome: Result<InitializeResult, MCPError>) -> (r:
        Result<(), McpServiceError>)
        requires
            old(self).wf(),
        ensures
            final(self).wf(),
            !(old(self).state is Initializing) ==> (r matches Err(
                McpServiceError::ProtocolError(_),
            ) && *final(self) == *old(self)),
            old(self).state is Initializing && (outcome matches Ok(res)
                && res.protocol_version@ == old(self).client_version@) ==> (r is Ok && {
                &&& final(self).state is Ready
                &&& final(self).capabilities == Some(
                    negotiated(old(self).client_capabilities, outcome->Ok_0.capabilities),
                )
                &&& final(self).protocol_version matches Some(v) && v@ == old(
                    self,
                ).client_version@
                &&& final(self).pending@ == old(self).pending@
                &&& final(self).next_id == old(self).next_id
                &&& final(self).anomalies == old(self).anomalies
                &&& final(self).client_version == old(self).client_version
                &&& final(self).client_capabilities == old(self).client_capabilities
                &&& final(self).cached_tools == old(self).cached_tools
                &&& final(self).cached_resources == old(self).cached_resources
                &&& final(self).cached_prompts == old(self).cached_prompts
            }),
            old(self).state is Initializing && (outcome matches Ok(res)
                && res.protocol_version@ != old(self).client_version@) ==> (r matches Err(
                McpServiceError::ProtocolError(_),
            ) && final(self).state is Failed && final(self).capabilities is None && final(self).pending@.len() == 0 && final(self).client_version == old(self).client_version
                && final(self).next_id == old(self).next_id && final(self).anomalies == old(self).anomalies),
            old(self).state is Initializing && outcome is Err ==> (r matches Err(
                McpServiceError::ProtocolError(_),
            ) && final(self).state is Failed && final(self).capabilities is None && final(self).pending@.len() == 0 && final(self).client_version == old(self).client_version
                && final(self).next_id == old(self).next_id && final(self).anomalies == old(self).anomalies),
    {
        match self.state {
            ConnectionState::Initializing => {},
            _ => {
                return Err(
                    McpServiceError::ProtocolError(String::from_str("no handshake in flight")),
                );
            },
        }
        match outcome {
            Ok(res) => {
                if str_eq(res.protocol_version.as_str(), self.client_version.as_str()) {
                    let caps = crate::protocol::negotiate_capabilities(
                        &self.client_capabilities,
                        &res.capabilities,
                    );
                    self.state = ConnectionState::Ready;
                    self.capabilities = Some(caps);
                    self.protocol_version = Some(self.client_version.clone());
                    Ok(())
                } else {
                    self.state = ConnectionState::Failed;
                    self.capabilities = None;
                    self.pending = Vec::new();
                    Err(
                        McpServiceError::ProtocolError(
                            String::from_str("unsupported protocol version"),
                        ),
                    )
                }
            },
            Err(_) => {
                self.state = ConnectionState::Failed;
                self.capabilities = None;
                self.pending = Vec::new();
                Err(McpServiceError::ProtocolError(String::from_str("initialize failed")))
            },
        }
    }

    /// Begins `tools/list`. Gated on the Ready state and the negotiated
    /// tools capability; a refusal touches no transport state.
    pub fn begin_tools_list(&mut self) -> (r: Result<OutboundRequest, McpServiceError>)
        requires
            old(self).wf(),
        ensures
            final(self).wf(),
            !(old(self).state is Ready) ==> (r matches Err(McpServiceError::NotConnected(_))
                && *final(self) == *old(self)),
            old(self).state is Ready && !old(self).tools_allowed() ==> (r matches Err(
                McpServiceError::CapabilityError(_),
            ) && *final(self) == *old(self)),
            old(self).state is Ready && old(self).tools_allowed() && old(self).next_id == u64::MAX
                ==> (r matches Err(McpServiceError::ProtocolError(_)) && *final(self) == *old(
                self,
            )),
            old(self).state is Ready && old(self).tools_allowed() && old(self).next_id < u64::MAX
                ==> (r matches Ok(q) && {
                &&& q.jsonrpc@ == "2.0"@
                &&& q.id == old(self).next_id
                &&& q.method@ == "tools/list"@
                &&& q.params matches RequestPayload::ToolsList(p) && p.cursor is None
                &&& enqueued(*old(self), *final(self), RequestKind::ToolsList)
            }),
    {
        match self.state {
            ConnectionState::Ready => {},
            _ => {
                return Err(McpServiceError::NotConnected(String::from_str("tools/list")));
            },
        }
        let allowed = match &self.capabilities {
            Some(c) => c.tools.is_some(),
            None => false,
        };
        if !allowed {
            return Err(McpServiceError::CapabilityError(String::from_str("tools")));
        }
        if self.next_id == u64::MAX {
            return Err(McpServiceError::ProtocolError(String::from_str("request ids exhausted")));
        }
        let id = self.enqueue(RequestKind::ToolsList);
        Ok(
            OutboundRequest {
                jsonrpc: "2.0".to_owned(),
                id,
                method: "tools/list".to_owned(),
                params: RequestPayload::ToolsList(ToolsListParams { cursor: None }),
            },
        )
    }

    /// Begins `tools/call`. The guard checks only the Ready state and the
    /// negotiated tools capability — never the tool's name, which only the
    /// server can judge.
    pub fn begin_tools_call(&mut self, params: ToolsCallParams) -> (r: Result<
        OutboundRequest,
        McpServiceError,
    >)
        requires
            old(self).wf(),
        ensures
            final(self).wf(),
            !(old(self).state is Ready) ==> (r matches Err(McpServiceError::NotConnected(_))
                && *final(self) == *old(self)),
            old(self).state is Ready && !old(self).tools_allowed() ==> (r matches Err(
                McpServiceError::CapabilityError(_),
            ) && *final(self) == *old(self)),
            old(self).state is Ready && old(self).tools_allowed() && old(self).next_id == u64::MAX
                ==> (r matches Err(McpServiceError::ProtocolError(_)) && *final(self) == *old(
                self,
            )),
            old(self).state is Ready && old(self).tools_allowed() && old(self).next_id < u64::MAX
                ==> (r matches Ok(q) && {
                &&& q.jsonrpc@ == "2.0"@
                &&& q.id == old(self).next_id
                &&& q.method@ == "tools/call"@
                &&& q.params matches RequestPayload::ToolsCall(p) && p == params
                &&& enqueued(*old(self), *final(self), RequestKind::ToolsCall)
            }),
    {
        match self.state {
            ConnectionState::Ready => {},
            _ => {
                return Err(McpServiceError::NotConnected(String::from_str("tools/call")));
            },
        }
        let allowed = match &self.capabilities {
            Some(c) => c.tools.is_some(),
            None => false,
        };
        if !allowed {
            return Err(McpServiceError::CapabilityError(String::from_str("tools")));
        }
        if self.next_id == u64::MAX {
            return Err(McpServiceError::ProtocolError(String::from_str("request ids exhausted")));
        }
        let id = self.enqueue(RequestKind::ToolsCall);
        Ok(
            OutboundRequest {
                jsonrpc: "2.0".to_owned(),
                id,
                method: "tools/call".to_owned(),
                params: RequestPayload::ToolsCall(params),
            },
        )
    }

    /// Begins `resources/list`, gated on the resources capability.
    pub fn begin_resources_list(&mut self) -> (r: Result<OutboundRequest, McpServiceError>)
        requires
            old(self).wf(),
        ensures
            final(self).wf(),
            !(old(self).state is Ready) ==> (r matches Err(McpServiceError::NotConnected(_))
                && *final(self) == *old(self)),
            old(self).state is Ready && !old(self).resources_allowed() ==> (r matches Err(
                McpServiceError::CapabilityError(_),
            ) && *final(self) == *old(self)),
            old(self).state is Ready && old(self).resources_allowed() && old(self).next_id
                == u64::MAX ==> (r matches Err(McpServiceError::ProtocolError(_)) && *final(self)
                == *old(self)),
            old(self).state is Ready && old(self).resources_allowed() && old(self).next_id
                < u64::MAX ==> (r matches Ok(q) && {
                &&& q.jsonrpc@ == "2.0"@
                &&& q.id == old(self).next_id
                &&& q.method@ == "resources/list"@
                &&& q.params matches RequestPayload::ResourcesList(p) && p.cursor is None
                &&& enqueued(*old(self), *final(self), RequestKind::ResourcesList)
            }),
    {
        match self.state {
            ConnectionState::Ready => {},
            _ => {
                return Err(McpServiceError::NotConnected(String::from_str("resources/list")));
            },
        }
        let allowed = match &self.capabilities {
            Some(c) => c.resources.is_some(),
            None => false,
        };
        if !allowed {
            return Err(McpServiceError::CapabilityError(String::from_str("resources")));
        }
        if self.next_id == u64::MAX {
            return Err(McpServiceError::ProtocolError(String::from_str("request ids exhausted")));
        }
        let id = self.enqueue(RequestKind::ResourcesList);
        Ok(
            OutboundRequest {
                jsonrpc: "2.0".to_owned(),
                id,
                method: "resources/list".to_owned(),
                params: RequestPayload::ResourcesList(ResourcesListParams { cursor: None }),
            },
        )
    }

    /// Begins `resources/read`, gated on the resources capability.
    pub fn begin_resources_read(&mut self, params: ResourcesReadParams) -> (r: Result<
        OutboundRequest,
        McpServiceError,
    >)
        requires
            old(self).wf(),
        ensures
            final(self).wf(),
            !(old(self).state is Ready) ==> (r matches Err(McpServiceError::NotConnected(_))
                && *final(self) == *old(self)),
            old(self).state is Ready && !old(self).resources_allowed() ==> (r matches Err(
                McpServiceError::CapabilityError(_),
            ) && *final(self) == *old(self)),
            old(self).state is Ready && old(self).resources_allowed() && old(self).next_id
                == u64::MAX ==> (r matches Err(McpServiceError::ProtocolError(_)) && *final(self)
                == *old(self)),
            old(self).state is Ready && old(self).resources_allowed() && old(self).next_id
                < u64::MAX ==> (r matches Ok(q) && {
                &&& q.jsonrpc@ == "2.0"@
                &&& q.id == old(self).next_id
                &&& q.method@ == "resources/read"@
                &&& q.params matches RequestPayload::ResourcesRead(p) && p == params
                &&& enqueued(*old(self), *final(self), RequestKind::ResourcesRead)
            }),
    {
        match self.state {
            ConnectionState::Ready => {},
            _ => {
                return Err(McpServiceError::NotConnected(String::from_str("resources/read")));
            },
        }
        let allowed = match &self.capabilities {
            Some(c) => c.resources.is_some(),
            None => false,
        };
        if !allowed {
            return Err(McpServiceError::CapabilityError(String::from_str("resources")));
        }
        if self.next_id == u64::MAX {
            return Err(McpServiceError::ProtocolError(String::from_str("request ids exhausted")));
        }
        let id = self.enqueue(RequestKind::ResourcesRead);
        Ok(
            OutboundRequest {
                jsonrpc: "2.0".to_owned(),
                id,
                method: "resources/read".to_owned(),
                params: RequestPayload::ResourcesRead(params),
            },
        )
    }

    /// Begins `prompts/list`, gated on the prompts capability.
    pub fn begin_prompts_list(&mut self) -> (r: Result<OutboundRequest, McpServiceError>)
        requires
            old(self).wf(),
        ensures
            final(self).wf(),
            !(old(self).state is Ready) ==> (r matches Err(McpServiceError::NotConnected(_))
                && *final(self) == *old(self)),
            old(self).state is Ready && !old(self).prompts_allowed() ==> (r matches Err(
                McpServiceError::CapabilityError(_),
            ) && *final(self) == *old(self)),
            old(self).state is Ready && old(self).prompts_allowed() && old(self).next_id
                == u64::MAX ==> (r matches Err(McpServiceError::ProtocolError(_)) && *final(self)
                == *old(self)),
            old(self).state is Ready && old(self).prompts_allowed() && old(self).next_id < u64::MAX
                ==> (r matches Ok(q) && {
                &&& q.jsonrpc@ == "2.0"@
                &&& q.id == old(self).next_id
                &&& q.method@ == "prompts/list"@
                &&& q.params matches RequestPayload::PromptsList(p) && p.cursor is None
                &&& enqueued(*old(self), *final(self), RequestKind::PromptsList)
            }),
    {
        match self.state {
            ConnectionState::Ready => {},
            _ => {
                return Err(McpServiceError::NotConnected(String::from_str("prompts/list")));
            },
        }
        let allowed = match &self.capabilities {
            Some(c) => c.prompts.is_some(),
            None => false,
        };
        if !allowed {
            return Err(McpServiceError::CapabilityError(String::from_str("prompts")));
        }
        if self.next_id == u64::MAX {
            return Err(McpServiceError::ProtocolError(String::from_str("request ids exhausted")));
        }
        let id = self.enqueue(RequestKind::PromptsList);
        Ok(
            OutboundRequest {
                jsonrpc: "2.0".to_owned(),
                id,
                method: "prompts/list".to_owned(),
                params: RequestPayload::PromptsList(PromptsListParams { cursor: None }),
            },
        )
    }

    /// Begins `prompts/get`, gated on the prompts capability.
    pub fn begin_prompts_get(&mut self, params: PromptsGetParams) -> (r: Result<
        OutboundRequest,
        McpServiceError,
    >)
        requires
            old(self).wf(),
        ensures
            final(self).wf(),
            !(old(self).state is Ready) ==> (r matches Err(McpServiceError::NotConnected(_))
                && *final(self) == *old(self)),
            old(self).state is Ready && !old(self).prompts_allowed() ==> (r matches Err(
                McpServiceError::CapabilityError(_),
            ) && *final(self) == *old(self)),
            old(self).state is Ready && old(self).prompts_allowed() && old(self).next_id
                == u64::MAX ==> (r matches Err(McpServiceError::ProtocolError(_)) && *final(self)
                == *old(self)),
            old(self).state is Ready && old(self).prompts_allowed() && old(self).next_id < u64::MAX
                ==> (r matches Ok(q) && {
                &&& q.jsonrpc@ == "2.0"@
                &&& q.id == old(self).next_id
                &&& q.method@ == "prompts/get"@
                &&& q.params matches RequestPayload::PromptsGet(p) && p == params
                &&& enqueued(*old(self), *final(self), RequestKind::PromptsGet)
            }),
    {
        match self.state {
            ConnectionState::Ready => {},
            _ => {
                return Err(McpServiceError::NotConnected(String::from_str("prompts/get")));
            },
        }
        let allowed = match &self.capabilities {
            Some(c) => c.prompts.is_some(),
            None => false,
        };
        if !allowed {
            return Err(McpServiceError::CapabilityError(String::from_str("prompts")));
        }
        if self.next_id == u64::MAX {
            return Err(McpServiceError::ProtocolError(String::from_str("request ids exhausted")));
        }
        let id = self.enqueue(RequestKind::PromptsGet);
        Ok(
            OutboundRequest {
                jsonrpc: "2.0".to_owned(),
                id,
                method: "prompts/get".to_owned(),
                params: RequestPayload::PromptsGet(params),
            },
        )
    }

    /// Begins `ping`. Gated only on the Ready state: every server answers
    /// pings.
    pub fn begin_ping(&mut self) -> (r: Result<OutboundRequest, McpServiceError>)
        requires
            old(self).wf(),
        ensures
            final(self).wf(),
            !(old(self).state is Ready) ==> (r matches Err(McpServiceError::NotConnected(_))
                && *final(self) == *old(self)),
            old(self).state is Ready && old(self).next_id == u64::MAX ==> (r matches Err(
                McpServiceError::ProtocolError(_),
            ) && *final(self) == *old(self)),
            old(self).state is Ready && old(self).next_id < u64::MAX ==> (r matches Ok(q) && {
                &&& q.jsonrpc@ == "2.0"@
                &&& q.id == old(self).next_id
                &&& q.method@ == "ping"@
                &&& q.params is Ping
                &&& enqueued(*old(self), *final(self), RequestKind::Ping)
            }),
    {
        match self.state {
            ConnectionState::Ready => {},
            _ => {
                return Err(McpServiceError::NotConnected(String::from_str("ping")));
            },
        }
        if self.next_id == u64::MAX {
            return Err(McpServiceError::ProtocolError(String::from_str("request ids exhausted")));
        }
        let id = self.enqueue(RequestKind::Ping);
        Ok(
            OutboundRequest {
                jsonrpc: "2.0".to_owned(),
                id,
                method: "ping".to_owned(),
                params: RequestPayload::Ping(PingParams {}),
            },
        )
    }

    /// Stores a fresh `tools/list` result in the cache.
    pub fn note_tools_listed(&mut self, tools: Vec<MCPTool>)
        requires
            old(self).wf(),
        ensures
            final(self).wf(),
            final(self).cached_tools == Some(tools),
            final(self).cached_resources == old(self).cached_resources,
            final(self).cached_prompts == old(self).cached_prompts,
            final(self).state == old(self).state,
            final(self).pending@ == old(self).pending@,
            final(self).next_id == old(self).next_id,
            final(self).anomalies == old(self).anomalies,
            final(self).capabilities == old(self).capabilities,
            final(self).protocol_version == old(self).protocol_version,
            final(self).client_version == old(self).client_version,
            final(self).client_capabilities == old(self).client_capabilities,
    {
        self.cached_tools = Some(tools);
    }

    /// Stores a fresh `resources/list` result in the cache.
    pub fn note_resources_listed(&mut self, resources: Vec<MCPResource>)
        requires
            old(self).wf(),
        ensures
            final(self).wf(),
            final(self).cached_resources == Some(resources),
            final(self).cached_tools == old(self).cached_tools,
            final(self).cached_prompts == old(self).cached_prompts,
            final(self).state == old(self).state,
            final(self).pending@ == old(self).pending@,
            final(self).next_id == old(self).next_id,
            final(self).anomalies == old(self).anomalies,
            final(self).capabilities == old(self).capabilities,
            final(self).protocol_version == old(self).protocol_version,
            final(self).client_version == old(self).client_version,
            final(self).client_capabilities == old(self).client_capabilities,
    {
        self.cached_resources = Some(resources);
    }

    /// Stores a fresh `prompts/list` result in the cache.
    pub fn note_prompts_listed(&mut self, prompts: Vec<MCPPrompt>)
        requires
            old(self).wf(),
        ensures
            final(self).wf(),
            final(self).cached_prompts == Some(prompts),
            final(self).cached_tools == old(self).cached_tools,
            final(self).cached_resources == old(self).cached_resources,
            final(self).state == old(self).state,
            final(self).pending@ == old(self).pending@,
            final(self).next_id == old(self).next_id,
            final(self).anomalies == old(self).anomalies,
            final(self).capabilities == old(self).capabilities,
            final(self).protocol_version == old(self).protocol_version,
            final(self).client_version == old(self).client_version,
            final(self).client_capabilities == old(self).client_capabilities,
    {
        self.cached_prompts = Some(prompts);
    }

    /// Handles a notification: a list-changed method invalidates its cached
    /// listing and nothing else; the pending table is never touched.
    pub fn handle_notification(&mut self, method: &str)
        requires
            old(self).wf(),
        ensures
            final(self).wf(),
            final(self).state == old(self).state,
            final(self).pending@ == old(self).pending@,
            final(self).next_id == old(self).next_id,
            final(self).anomalies == old(self).anomalies,
            final(self).capabilities == old(self).capabilities,
            final(self).protocol_version == old(self).protocol_version,
            final(self).client_version == old(self).client_version,
            final(self).client_capabilities == old(self).client_capabilities,
            method@ == "notifications/tools/list_changed"@ ==> (final(self).cached_tools is None
                && final(self).cached_resources == old(self).cached_resources && final(self).cached_prompts == old(self).cached_prompts),
            method@ != "notifications/tools/list_changed"@ && method@
                == "notifications/resources/list_changed"@ ==> (final(self).cached_resources
                is None && final(self).cached_tools == old(self).cached_tools && final(self).cached_prompts == old(self).cached_prompts),
            method@ != "notifications/tools/list_changed"@ && method@
                != "notifications/resources/list_changed"@ && method@
                == "notifications/prompts/list_changed"@ ==> (final(self).cached_prompts is None
                && final(self).cached_tools == old(self).cached_tools && final(self).cached_resources == old(self).cached_resources),
            method@ != "notifications/tools/list_changed"@ && method@
                != "notifications/resources/list_changed"@ && method@
                != "notifications/prompts/list_changed"@ ==> *final(self) == *old(self),
    {
        if str_eq(method, "notifications/tools/list_changed") {
            self.cached_tools = None;
        } else if str_eq(method, "notifications/resources/list_changed") {
            self.cached_resources = None;
        } else if str_eq(method, "notifications/prompts/list_changed") {
            self.cached_prompts = None;
        }
    }

    /// Closes the session: the state becomes Closed, the negotiated set is
    /// dropped, and the ids of all pending requests are returned so their
    /// callers can be failed with a Closed error.
    pub fn close(&mut self) -> (failed: Vec<u64>)
        requires
            old(self).wf(),
        ensures
            final(self).wf(),
            final(self).state is Closed,
            final(self).pending@.len() == 0,
            final(self).capabilities is None,
            final(self).cached_tools is None,
            final(self).cached_resources is None,
            final(self).cached_prompts is None,
            final(self).anomalies == old(self).anomalies,
            final(self).next_id == old(self).next_id,
            failed@ == old(self).pending@.map_values(|p: (u64, RequestKind)| p.0),
    {
        let failed = self.drain_pending_ids();
        self.state = ConnectionState::Closed;
        self.capabilities = None;
        self.cached_tools = None;
        self.cached_resources = None;
        self.cached_prompts = None;
        failed
    }

    /// Fails the session: like `close`, but the state becomes Failed.
    pub fn fail(&mut self) -> (failed: Vec<u64>)
        requires
            old(self).wf(),
        ensures
            final(self).wf(),
            final(self).state is Failed,
            final(self).pending@.len() == 0,
            final(self).capabilities is None,
            final(self).cached_tools is None,
            final(self).cached_resources is None,
            final(self).cached_prompts is None,
            final(self).anomalies == old(self).anomalies,
            final(self).next_id == old(self).next_id,
            failed@ == old(self).pending@.map_values(|p: (u64, RequestKind)| p.0),
    {
        let failed = self.drain_pending_ids();
        self.state = ConnectionState::Failed;
        self.capabilities = None;
        self.cached_tools = None;
        self.cached_resources = None;
        self.cached_prompts = None;
        failed
    }

    /// Empties the pending table and returns the ids it held, in order.
    fn drain_pending_ids(&mut self) -> (failed: Vec<u64>)
        requires
            old(self).wf(),
        ensures
            final(self).pending@.len() == 0,
            failed@ == old(self).pending@.map_values(|p: (u64, RequestKind)| p.0),
            final(self).state == old(self).state,
            final(self).next_id == old(self).next_id,
            final(self).anomalies == old(self).anomalies,
            final(self).capabilities == old(self).capabilities,
            final(self).protocol_version == old(self).protocol_version,
            final(self).client_version == old(self).client_version,
            final(self).client_capabilities == old(self).client_capabilities,
            final(self).cached_tools == old(self).cached_tools,
            final(self).cached_resources == old(self).cached_resources,
            final(self).cached_prompts == old(self).cached_prompts,
    {
        let n: usize = self.pending.len();
        let mut failed: Vec<u64> = Vec::new();
        let mut i: usize = 0;
        while i < n
            invariant
                n == self.pending@.len(),
                self.pending@ == old(self).pending@,
                i <= n,
                failed@.len() == i,
                forall|j: int| 0 <= j < i ==> #[trigger] failed@[j] == self.pending@[j].0,
                self == old(self),
            decreases n - i,
        {
            failed.push(self.pending[i].0);
            i = i + 1;
        }
        self.pending = Vec::new();
        proof {
            assert(failed@ =~= old(self).pending@.map_values(|p: (u64, RequestKind)| p.0));
        }
        failed
    }
}

} // verus!
