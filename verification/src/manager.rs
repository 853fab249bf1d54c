//! The per-server lifecycle state machine over all configured servers.
//!
//! The manager turns configuration into live connections, answers status
//! queries, and isolates failures: an operation on one server id never
//! touches the entry of another. Spawning, dialing and the handshake round
//! trip happen outside the crate; a start is therefore split into a `begin`
//! step that decides and plans, and a `finish` step that records the
//! outcome.

use vstd::prelude::*;
use crate::connection::{enqueued, Connection, OutboundRequest, RequestKind, RequestPayload};
use crate::error::McpServiceError;
use crate::fsmodel::FsSnapshot;
use crate::protocol::{MCPCapability, MCPError, MCPResponse, ResourcesReadParams, ToolsCallParams};
use crate::runtime::{resolution_ok, resolvable, ResolvedCommand, RuntimeManager};
use crate::text::{clone_pair_vec, clone_string_vec, str_eq, views_of};

verus! {

/// How a configured server is reached.
#[derive(Debug, Clone, Copy, PartialEq, Eq, Structural)]
pub enum ServerType {
    /// A local process, launched by command.
    Local,
    /// A containerized process, launched by command.
    Container,
    /// A remote endpoint, reached by URL.
    Remote,
}

/// One server's configuration, owned by the external config store and
/// read-only here.
#[derive(Debug)]
pub struct ServerConfig {
    /// Unique, stable identity.
    pub id: String,
    /// Display name.
    pub name: String,
    /// How the server is reached.
    pub server_type: ServerType,
    /// The launch command, for Local and Container servers.
    pub command: Option<String>,
    /// Launch arguments.
    pub args: Vec<String>,
    /// Extra environment variables for the spawned process.
    pub env: Vec<(String, String)>,
    /// The endpoint, for Remote servers.
    pub url: Option<String>,
    /// Whether the server may be started at all.
    pub enabled: bool,
    /// Whether the server starts with the application.
    pub auto_start: bool,
}

/// Where one server's lifecycle stands.
#[derive(Debug)]
pub enum ServerStatus {
    /// Never started.
    Uninitialized,
    /// A start was begun and its outcome is awaited.
    Starting,
    /// A live connection exists.
    Running,
    /// A stop is under way.
    Stopping,
    /// Stopped after running, or configured off.
    Stopped,
    /// Disabled by configuration.
    Disabled,
    /// The last start or session failed, with the retained reason.
    Error(String),
}

/// One managed server: its configuration, status, and live connection when
/// Running.
#[derive(Debug)]
pub struct ServerEntry {
    /// The configuration, as loaded.
    pub config: ServerConfig,
    /// The current lifecycle status.
    pub status: ServerStatus,
    /// The live connection; present exactly while Running.
    pub connection: Option<Connection>,
}

/// Supervises every configured server.
#[derive(Debug)]
pub struct ServerManager {
    /// One entry per configured server, in configuration order.
    pub servers: Vec<ServerEntry>,
    /// The protocol revision new connections ask for.
    pub client_version: String,
    /// The capability declaration new connections present.
    pub client_capabilities: MCPCapability,
}

/// What a begun start asks the caller to do on the outside.
#[derive(Debug)]
pub enum StartAction {
    /// The server is already Running; nothing to do and nothing changed.
    AlreadyRunning,
    /// Spawn the resolved command with these arguments, the configured extra
    /// environment, and the merged search path.
    Spawn {
        /// The resolved launch command.
        resolved: ResolvedCommand,
        /// Arguments, from the configuration.
        args: Vec<String>,
        /// Extra environment variables, from the configuration.
        env: Vec<(String, String)>,
        /// The merged search path for the child: managed entries first.
        path_entries: Vec<String>,
    },
    /// Dial the configured URL.
    Dial {
        /// The endpoint to dial.
        url: String,
    },
}

/// How the outside start attempt ended.
#[derive(Debug)]
pub enum StartOutcome {
    /// Transport and handshake succeeded; here is the Ready session.
    Connected(Connection),
    /// Spawning, dialing or the handshake failed, with the reason.
    Failed(String),
}

/// The entry `e` moved to Starting.
pub open spec fn starting_entry(e: ServerEntry) -> ServerEntry {
    ServerEntry { config: e.config, status: ServerStatus::Starting, connection: None }
}

/// The entry `e` moved to Stopped, its connection gone.
pub open spec fn stopped_entry(e: ServerEntry) -> ServerEntry {
    ServerEntry { config: e.config, status: ServerStatus::Stopped, connection: None }
}

/// The entry `e` moved to Running over the connection `c`.
pub open spec fn running_entry(e: ServerEntry, c: Connection) -> ServerEntry {
    ServerEntry { config: e.config, status: ServerStatus::Running, connection: Some(c) }
}

/// Stopping a Running server and then starting it again drives its status
/// Running, then Stopped, then Starting, then Running, while its
/// configuration never moves.
pub proof fn lemma_stop_then_start_roundtrip(e: ServerEntry, c: Connection)
    requires
        e.status is Running,
    ensures
        stopped_entry(e).status is Stopped,
        starting_entry(stopped_entry(e)).status is Starting,
        running_entry(starting_entry(stopped_entry(e)), c).status is Running,
        running_entry(starting_entry(stopped_entry(e)), c).config == e.config,
{
}

impl ServerManager {
    /// Internal consistency: ids are unique, a connection exists exactly
    /// while Running, and every live connection is a well-formed Ready
    /// session.
    pub open spec fn wf(self) -> bool {
        &&& forall|i: int, j: int|
            0 <= i < j < self.servers@.len() ==> (#[trigger] self.servers@[i]).config.id@ != (
            #[trigger] self.servers@[j]).config.id@
        &&& forall|i: int|
            0 <= i < self.servers@.len() ==> ((#[trigger] self.servers@[i]).status is Running
                <==> self.servers@[i].connection is Some)
        &&& forall|i: int|
            0 <= i < self.servers@.len() ==> ((#[trigger] self.servers@[i]).connection matches Some(
                c,
            ) ==> c.wf() && c.state is Ready)
    }

    /// Whether some server is configured under this id.
    pub open spec fn has_server(self, id: Seq<char>) -> bool {
        exists|i: int|
            0 <= i < self.servers@.len() && (#[trigger] self.servers@[i]).config.id@ == id
    }

    /// A manager over the given configurations; enabled servers start out
    /// Uninitialized, disabled ones Disabled, none connected.
    pub fn new(
        configs: Vec<ServerConfig>,
        client_version: String,
        client_capabilities: MCPCapability,
    ) -> (r: ServerManager)
        requires
            forall|i: int, j: int|
                0 <= i < j < configs@.len() ==> (#[trigger] configs@[i]).id@ != (
                #[trigger] configs@[j]).id@,
        ensures
            r.wf(),
            r.servers@.len() == configs@.len(),
            forall|i: int|
                0 <= i < configs@.len() ==> {
                    &&& (#[trigger] r.servers@[i]).config == configs@[i]
                    &&& r.servers@[i].connection is None
                    &&& (configs@[i].enabled ==> r.servers@[i].status is Uninitialized)
                    &&& (!configs@[i].enabled ==> r.servers@[i].status is Disabled)
                },
            r.client_version == client_version,
            r.client_capabilities == client_capabilities,
    {
        let mut servers: Vec<ServerEntry> = Vec::new();
        let mut configs = configs;
        let n: usize = configs.len();
        let ghost all = configs@;
        let mut i: usize = 0;
        while i < n
            invariant
                n == all.len(),
                i <= n,
                configs@ == all.skip(i as int),
                servers@.len() == i,
                forall|k: int|
                    0 <= k < i ==> {
                        &&& (#[trigger] servers@[k]).config == all[k]
                        &&& servers@[k].connection is None
                        &&& (all[k].enabled ==> servers@[k].status is Uninitialized)
                        &&& (!all[k].enabled ==> servers@[k].status is Disabled)
                    },
            decreases n - i,
        {
            proof {
                assert(configs@[0] == all[i as int]);
                assert(configs@.drop_first() =~= all.skip(i + 1));
            }
            let config = configs.remove(0);
            let status = if config.enabled {
                ServerStatus::Uninitialized
            } else {
                ServerStatus::Disabled
            };
            servers.push(ServerEntry { config, status, connection: None });
            i = i + 1;
        }
        ServerManager { servers, client_version, client_capabilities }
    }

    /// The index of the server with this id, when configured.
    fn find_index(&self, id: &str) -> (r: Option<usize>)
        ensures
            match r {
                Some(i) => i < self.servers@.len() && self.servers@[i as int].config.id@ == id@,
                None => !self.has_server(id@),
            },
    {
        let n: usize = self.servers.len();
        let mut i: usize = 0;
        while i < n
            invariant
                n == self.servers@.len(),
                i <= n,
                forall|j: int| 0 <= j < i ==> (#[trigger] self.servers@[j]).config.id@ != id@,
            decreases n - i,
        {
            if str_eq(self.servers[i].config.id.as_str(), id) {
                return Some(i);
            }
            i = i + 1;
        }
        None
    }

    /// The status of the server with this id. Always answerable for a
    /// configured id; an unknown id is the only error.
    pub fn get_server_status(&self, id: &str) -> (r: Result<ServerStatus, McpServiceError>)
        ensures
            !self.has_server(id@) ==> (r matches Err(McpServiceError::ServerNotFound(_))),
            self.has_server(id@) ==> (r matches Ok(st) && exists|i: int|
                0 <= i < self.servers@.len() && (#[trigger] self.servers@[i]).config.id@ == id@
                    && st == self.servers@[i].status),
    {
        match self.find_index(id) {
            None => Err(McpServiceError::ServerNotFound(id.to_owned())),
            Some(i) => Ok(clone_status(&self.servers[i].status)),
        }
    }

    /// The live connection of the server with this id: present exactly when
    /// the server is Running. Absence is the canonical "not usable right
    /// now", not an error.
    pub fn get_connection(&self, id: &str) -> (r: Option<&Connection>)
        requires
            self.wf(),
        ensures
            match r {
                Some(c) => exists|i: int|
                    0 <= i < self.servers@.len() && (#[trigger] self.servers@[i]).config.id@ == id@
                        && self.servers@[i].status is Running && self.servers@[i].connection
                        == Some(*c),
                None => forall|i: int|
                    0 <= i < self.servers@.len() && (#[trigger] self.servers@[i]).config.id@ == id@
                        ==> !(self.servers@[i].status is Running),
            },
    {
        match self.find_index(id) {
            None => None,
            Some(i) => {
                let entry = &self.servers[i];
                match &entry.connection {
                    Some(c) => Some(c),
                    None => None,
                }
            },
        }
    }

    /// Sets the status of entry `i`, which holds no connection.
    fn set_status(&mut self, i: usize, status: ServerStatus)
        requires
            old(self).wf(),
            i < old(self).servers@.len(),
            old(self).servers@[i as int].connection is None,
            !(status is Running),
        ensures
            final(self).wf(),
            final(self).servers@ == old(self).servers@.update(
                i as int,
                ServerEntry {
                    config: old(self).servers@[i as int].config,
                    status,
                    connection: None,
                },
            ),
            final(self).client_version == old(self).client_version,
            final(self).client_capabilities == old(self).client_capabilities,
    {
        let entry = &mut self.servers[i];
        entry.status = status;
        proof {
            assert forall|a: int, b: int|
                0 <= a < b < self.servers@.len() implies (#[trigger] self.servers@[a]).config.id@
                != (#[trigger] self.servers@[b]).config.id@ by {
                assert(old(self).servers@[a].config.id@ != old(self).servers@[b].config.id@);
            }
        }
    }
}

/// A copy of a lifecycle status.
fn clone_status(s: &ServerStatus) -> (r: ServerStatus)
    ensures
        r == s,
{
    match s {
        ServerStatus::Uninitialized => ServerStatus::Uninitialized,
        ServerStatus::Starting => ServerStatus::Starting,
        ServerStatus::Running => ServerStatus::Running,
        ServerStatus::Stopping => ServerStatus::Stopping,
        ServerStatus::Stopped => ServerStatus::Stopped,
        ServerStatus::Disabled => ServerStatus::Disabled,
        ServerStatus::Error(m) => ServerStatus::Error(m.clone()),
    }
}


/// Everything except the entry at `i` is unchanged from `pre` to `post`.
pub open spec fn start_frame(pre: ServerManager, post: ServerManager, i: int) -> bool {
    &&& post.servers@.len() == pre.servers@.len()
    &&& (forall|j: int|
        0 <= j < pre.servers@.len() && j != i ==> #[trigger] post.servers@[j] == pre.servers@[j])
    &&& post.client_version == pre.client_version
    &&& post.client_capabilities == pre.client_capabilities
}

/// The entry at `i` of `post` records a start failure: its configuration is
/// kept, its status is an Error with the retained reason, and it holds no
/// connection.
pub open spec fn errored_at(pre: ServerManager, post: ServerManager, i: int) -> bool {
    &&& post.servers@[i].config == pre.servers@[i].config
    &&& post.servers@[i].status is Error
    &&& post.servers@[i].connection is None
}

/// The merged search path handed to a spawned server: the managed entries
/// first, then the non-empty entries of the process search path, each
/// directory once, order preserved.
pub open spec fn merged_path_ok(
    runtime: RuntimeManager,
    fs: FsSnapshot,
    entries: Seq<String>,
) -> bool {
    views_of(entries) == crate::runtime::merge_from(
        views_of(fs.path_dirs@),
        runtime.managed_entries_spec(fs),
    )
}

/// What beginning a launch does for the server at `i`, whatever its previous
/// non-Running, non-Disabled state: a Remote server yields a dial action, a
/// command server resolves its command and yields a spawn action with the
/// merged search path, and an unresolvable or unconfigured launch records an
/// Error on that entry alone.
pub open spec fn launch_post(
    pre: ServerManager,
    post: ServerManager,
    r: Result<StartAction, McpServiceError>,
    i: int,
    fs: FsSnapshot,
    runtime: RuntimeManager,
) -> bool {
    let cfg = pre.servers@[i].config;
    let root = runtime.runtime_root@;
    &&& (cfg.server_type is Remote ==> {
        &&& (cfg.url matches Some(u) ==> (r matches Ok(a) && (a matches StartAction::Dial { url }
            && url@ == u@) && post.servers@ == pre.servers@.update(
            i,
            ServerEntry { config: cfg, status: ServerStatus::Starting, connection: None },
        )))
        &&& (cfg.url is None ==> (r matches Err(McpServiceError::ConfigError(_)) && errored_at(
            pre,
            post,
            i,
        )))
    })
    &&& (!(cfg.server_type is Remote) ==> {
        &&& (cfg.command is None ==> (r matches Err(McpServiceError::ConfigError(_)) && errored_at(
            pre,
            post,
            i,
        )))
        &&& (cfg.command matches Some(cmd) ==> {
            &&& (!resolvable(fs, root, cmd@) ==> (r matches Err(
                McpServiceError::TransportError(_),
            ) && errored_at(pre, post, i)))
            &&& (resolvable(fs, root, cmd@) ==> (r matches Ok(a) && (a
                matches StartAction::Spawn { resolved, args, env, path_entries } && resolution_ok(
                fs,
                root,
                cmd@,
                resolved,
            ) && args@ == cfg.args@ && env@ == cfg.env@ && merged_path_ok(
                runtime,
                fs,
                path_entries@,
            )) && post.servers@ == pre.servers@.update(
                i,
                ServerEntry { config: cfg, status: ServerStatus::Starting, connection: None },
            )))
        })
    })
}

/// The full contract of beginning a start on the server at `i`: a Running
/// server is answered idempotently with nothing changed, a Disabled server is
/// refused with nothing changed, and any other server is launched.
pub open spec fn start_begin_post(
    pre: ServerManager,
    post: ServerManager,
    r: Result<StartAction, McpServiceError>,
    i: int,
    fs: FsSnapshot,
    runtime: RuntimeManager,
) -> bool {
    let e = pre.servers@[i];
    &&& start_frame(pre, post, i)
    &&& (e.status is Running ==> (r matches Ok(a) && a is AlreadyRunning && post == pre))
    &&& (e.status is Disabled ==> (r matches Err(McpServiceError::ConfigError(_)) && post == pre))
    &&& (!(e.status is Running) && !(e.status is Disabled) ==> launch_post(
        pre,
        post,
        r,
        i,
        fs,
        runtime,
    ))
}

/// The full contract of a restart begun on the server at `i`: a Disabled
/// server is refused with nothing changed; every other server — a Running one
/// included, after its connection is dropped — is launched.
pub open spec fn restart_begin_post(
    pre: ServerManager,
    post: ServerManager,
    r: Result<StartAction, McpServiceError>,
    i: int,
    fs: FsSnapshot,
    runtime: RuntimeManager,
) -> bool {
    let e = pre.servers@[i];
    &&& start_frame(pre, post, i)
    &&& (e.status is Disabled ==> (r matches Err(McpServiceError::ConfigError(_)) && post == pre))
    &&& (!(e.status is Disabled) ==> launch_post(pre, post, r, i, fs, runtime))
}

/// On a server that was never started, a restart is exactly a start: the two
/// contracts coincide whenever the entry is Uninitialized.
pub proof fn lemma_restart_uninitialized_is_start(
    pre: ServerManager,
    post: ServerManager,
    r: Result<StartAction, McpServiceError>,
    i: int,
    fs: FsSnapshot,
    runtime: RuntimeManager,
)
    requires
        0 <= i < pre.servers@.len(),
        pre.servers@[i].status is Uninitialized,
    ensures
        start_begin_post(pre, post, r, i, fs, runtime) <==> restart_begin_post(
            pre,
            post,
            r,
            i,
            fs,
            runtime,
        ),
{
}

/// Whether this entry is configured to start with the application.
pub open spec fn auto_start_entry(e: ServerEntry) -> bool {
    e.config.enabled && e.config.auto_start
}

/// Whether a non-destructive initialization would start this entry:
/// configured to auto-start, and never started yet.
pub open spec fn non_destructive_entry(e: ServerEntry) -> bool {
    auto_start_entry(e) && e.status is Uninitialized
}

/// The ids of the auto-start entries, in configuration order.
pub open spec fn auto_start_ids_of(entries: Seq<ServerEntry>) -> Seq<Seq<char>>
    decreases entries.len(),
{
    if entries.len() == 0 {
        Seq::empty()
    } else {
        (if auto_start_entry(entries[0]) {
            seq![entries[0].config.id@]
        } else {
            Seq::empty()
        }) + auto_start_ids_of(entries.drop_first())
    }
}

/// The ids a non-destructive initialization selects, in configuration order.
pub open spec fn non_destructive_ids_of(entries: Seq<ServerEntry>) -> Seq<Seq<char>>
    decreases entries.len(),
{
    if entries.len() == 0 {
        Seq::empty()
    } else {
        (if non_destructive_entry(entries[0]) {
            seq![entries[0].config.id@]
        } else {
            Seq::empty()
        }) + non_destructive_ids_of(entries.drop_first())
    }
}

impl ServerManager {
    /// Whether the server at `i` is configured to start with the
    /// application.
    pub open spec fn auto_start_selected(self, i: int) -> bool {
        auto_start_entry(self.servers@[i])
    }

    /// Whether a non-destructive initialization would start the server at
    /// `i`: configured to auto-start, and never started yet.
    pub open spec fn non_destructive_selected(self, i: int) -> bool {
        non_destructive_entry(self.servers@[i])
    }

    /// Whether `idv` names a server configured to start with the
    /// application.
    pub open spec fn is_auto_start_id(self, idv: Seq<char>) -> bool {
        exists|j: int|
            0 <= j < self.servers@.len() && (#[trigger] self.servers@[j]).config.id@ == idv
                && self.auto_start_selected(j)
    }

    /// Whether `idv` names a server a non-destructive initialization would
    /// start.
    pub open spec fn is_non_destructive_id(self, idv: Seq<char>) -> bool {
        exists|j: int|
            0 <= j < self.servers@.len() && (#[trigger] self.servers@[j]).config.id@ == idv
                && self.non_destructive_selected(j)
    }

    /// Distinct ids name distinct entries.
    proof fn lemma_unique_index(self, i: int, j: int)
        requires
            self.wf(),
            0 <= i < self.servers@.len(),
            0 <= j < self.servers@.len(),
            self.servers@[i].config.id@ == self.servers@[j].config.id@,
        ensures
            i == j,
    {
        if i < j {
            assert(self.servers@[i].config.id@ != self.servers@[j].config.id@);
        }
        if j < i {
            assert(self.servers@[j].config.id@ != self.servers@[i].config.id@);
        }
    }

    /// Begins starting a server. Idempotent while Running; a Disabled server
    /// is refused; otherwise the entry moves to Starting and the caller is
    /// told what to do on the outside (spawn or dial), or the entry records
    /// the Error when no launchable command exists. No other entry is
    /// touched.
    pub fn start_server_begin(&mut self, id: &str, runtime: &RuntimeManager, fs: &FsSnapshot) -> (r:
        Result<StartAction, McpServiceError>)
        requires
            old(self).wf(),
        ensures
            final(self).wf(),
            !old(self).has_server(id@) ==> (r matches Err(McpServiceError::ServerNotFound(_))
                && *final(self) == *old(self)),
            forall|i: int|
                0 <= i < old(self).servers@.len() && (#[trigger] old(self).servers@[i]).config.id@
                    == id@ ==> start_begin_post(*old(self), *final(self), r, i, *fs, *runtime),
    {
        let i: usize = match self.find_index(id) {
            None => {
                return Err(McpServiceError::ServerNotFound(id.to_owned()));
            },
            Some(i) => i,
        };
        let ghost i0: int = i as int;
        if matches!(self.servers[i].status, ServerStatus::Running) {
            proof {
                assert forall|k: int|
                    0 <= k < old(self).servers@.len() && (#[trigger] old(self).servers@[k]).config.id@ == id@ implies k == i0 by {
                    old(self).lemma_unique_index(k, i0);
                }
            }
            return Ok(StartAction::AlreadyRunning);
        }
        if matches!(self.servers[i].status, ServerStatus::Disabled) {
            proof {
                assert forall|k: int|
                    0 <= k < old(self).servers@.len() && (#[trigger] old(self).servers@[k]).config.id@ == id@ implies k == i0 by {
                    old(self).lemma_unique_index(k, i0);
                }
            }
            return Err(McpServiceError::ConfigError(String::from_str("server is disabled")));
        }
        let r = self.launch_entry(i, runtime, fs);
        proof {
            assert forall|k: int|
                0 <= k < old(self).servers@.len() && (#[trigger] old(self).servers@[k]).config.id@
                    == id@ implies k == i0 by {
                old(self).lemma_unique_index(k, i0);
            }
        }
        r
    }

    /// Begins restarting a server: a Running one is stopped first, then the
    /// launch proceeds exactly as a plain start. On a server that was not
    /// Running this is a plain start.
    pub fn restart_server_begin(&mut self, id: &str, runtime: &RuntimeManager, fs: &FsSnapshot) -> (
        r: Result<StartAction, McpServiceError>)
        requires
            old(self).wf(),
        ensures
            final(self).wf(),
            !old(self).has_server(id@) ==> (r matches Err(McpServiceError::ServerNotFound(_))
                && *final(self) == *old(self)),
            forall|i: int|
                0 <= i < old(self).servers@.len() && (#[trigger] old(self).servers@[i]).config.id@
                    == id@ ==> restart_begin_post(*old(self), *final(self), r, i, *fs, *runtime),
    {
        let i: usize = match self.find_index(id) {
            None => {
                return Err(McpServiceError::ServerNotFound(id.to_owned()));
            },
            Some(i) => i,
        };
        let ghost i0: int = i as int;
        if matches!(self.servers[i].status, ServerStatus::Disabled) {
            proof {
                assert forall|k: int|
                    0 <= k < old(self).servers@.len() && (#[trigger] old(self).servers@[k]).config.id@ == id@ implies k == i0 by {
                    old(self).lemma_unique_index(k, i0);
                }
            }
            return Err(McpServiceError::ConfigError(String::from_str("server is disabled")));
        }
        if matches!(self.servers[i].status, ServerStatus::Running) {
            let entry = &mut self.servers[i];
            match &mut entry.connection {
                Some(c) => {
                    let _failed = c.close();
                },
                None => {
                    proof {
                        assert(false);
                    }
                },
            }
            entry.connection = None;
            entry.status = ServerStatus::Stopped;
            proof {
                assert forall|a: int, b: int|
                    0 <= a < b < self.servers@.len() implies (#[trigger] self.servers@[a]).config.id@
                    != (#[trigger] self.servers@[b]).config.id@ by {
                    assert(old(self).servers@[a].config.id@ != old(self).servers@[b].config.id@);
                }
            }
        }
        let ghost mid = *self;
        let r = self.launch_entry(i, runtime, fs);
        proof {
            assert forall|k: int|
                0 <= k < old(self).servers@.len() && (#[trigger] old(self).servers@[k]).config.id@
                    == id@ implies k == i0 by {
                old(self).lemma_unique_index(k, i0);
            }
            assert(restart_begin_post(*old(self), *self, r, i0, *fs, *runtime)) by {
                assert(launch_post(mid, *self, r, i0, *fs, *runtime));
                assert(mid.servers@[i0].config == old(self).servers@[i0].config);
                if old(self).servers@[i0].status is Running {
                    assert(mid.servers@ =~= old(self).servers@.update(
                        i0,
                        ServerEntry {
                            config: old(self).servers@[i0].config,
                            status: ServerStatus::Stopped,
                            connection: None,
                        },
                    ));
                }
                launch_post_pre_entry_irrelevant(mid, *old(self), *self, r, i0, *fs, *runtime);
            }
        }
        r
    }

    /// Performs the launch decision for the entry at `i`, which is neither
    /// Running nor Disabled.
    fn launch_entry(&mut self, i: usize, runtime: &RuntimeManager, fs: &FsSnapshot) -> (r: Result<
        StartAction,
        McpServiceError,
    >)
        requires
            old(self).wf(),
            i < old(self).servers@.len(),
            !(old(self).servers@[i as int].status is Running),
            !(old(self).servers@[i as int].status is Disabled),
        ensures
            final(self).wf(),
            start_frame(*old(self), *final(self), i as int),
            launch_post(*old(self), *final(self), r, i as int, *fs, *runtime),
    {
        let remote = matches!(self.servers[i].config.server_type, ServerType::Remote);
        if remote {
            let url: String = match &self.servers[i].config.url {
                Some(u) => u.clone(),
                None => {
                    self.set_status(
                        i,
                        ServerStatus::Error(String::from_str("remote server has no url")),
                    );
                    return Err(
                        McpServiceError::ConfigError(String::from_str("remote server has no url")),
                    );
                },
            };
            self.set_status(i, ServerStatus::Starting);
            return Ok(StartAction::Dial { url });
        }
        let command: String = match &self.servers[i].config.command {
            Some(c) => c.clone(),
            None => {
                self.set_status(
                    i,
                    ServerStatus::Error(String::from_str("server has no launch command")),
                );
                return Err(
                    McpServiceError::ConfigError(String::from_str("server has no launch command")),
                );
            },
        };
        let resolved: ResolvedCommand = match runtime.resolve_command(fs, command.as_str()) {
            Some(rc) => rc,
            None => {
                self.set_status(
                    i,
                    ServerStatus::Error(
                        String::from_str("command not resolvable: ").concat(command.as_str()),
                    ),
                );
                return Err(
                    McpServiceError::TransportError(
                        String::from_str("command not resolvable: ").concat(command.as_str()),
                    ),
                );
            },
        };
        let args = clone_string_vec(&self.servers[i].config.args);
        let env = clone_pair_vec(&self.servers[i].config.env);
        let path_entries = runtime.merged_path_entries(fs, &fs.path_dirs);
        self.set_status(i, ServerStatus::Starting);
        Ok(StartAction::Spawn { resolved, args, env, path_entries })
    }

    /// Records the outcome of a begun start. A Ready connection makes the
    /// server Running; any failure is retained as that server's Error, never
    /// surfaced through other entries.
    pub fn start_server_finish(&mut self, id: &str, outcome: StartOutcome) -> (r: Result<
        (),
        McpServiceError,
    >)
        requires
            old(self).wf(),
            outcome matches StartOutcome::Connected(c) ==> c.wf(),
        ensures
            final(self).wf(),
            !old(self).has_server(id@) ==> (r matches Err(McpServiceError::ServerNotFound(_))
                && *final(self) == *old(self)),
            forall|i: int|
                0 <= i < old(self).servers@.len() && (#[trigger] old(self).servers@[i]).config.id@
                    == id@ ==> {
                    let e = old(self).servers@[i];
                    &&& start_frame(*old(self), *final(self), i)
                    &&& (!(e.status is Starting) ==> (r matches Err(
                        McpServiceError::ProtocolError(_),
                    ) && *final(self) == *old(self)))
                    &&& (e.status is Starting ==> {
                        &&& ((outcome matches StartOutcome::Connected(c) && c.state is Ready) ==> (
                        r is Ok && final(self).servers@ == old(self).servers@.update(
                            i,
                            running_entry(e, outcome->Connected_0),
                        )))
                        &&& ((outcome matches StartOutcome::Connected(c) && !(c.state is Ready))
                            ==> (r matches Err(McpServiceError::TransportError(_)) && errored_at(
                            *old(self),
                            *final(self),
                            i,
                        )))
                        &&& (outcome matches StartOutcome::Failed(m) ==> (r is Ok && (final(self).servers@[i].status matches ServerStatus::Error(mm) && mm@ == m@)
                            && final(self).servers@[i].connection is None && final(self).servers@[i].config == e.config))
                    })
                },
    {
        let i: usize = match self.find_index(id) {
            None => {
                return Err(McpServiceError::ServerNotFound(id.to_owned()));
            },
            Some(i) => i,
        };
        let ghost i0: int = i as int;
        proof {
            assert forall|k: int|
                0 <= k < old(self).servers@.len() && (#[trigger] old(self).servers@[k]).config.id@
                    == id@ implies k == i0 by {
                old(self).lemma_unique_index(k, i0);
            }
        }
        if !matches!(self.servers[i].status, ServerStatus::Starting) {
            return Err(McpServiceError::ProtocolError(String::from_str("no start in flight")));
        }
        match outcome {
            StartOutcome::Connected(c) => {
                if c.is_ready() {
                    let entry = &mut self.servers[i];
                    entry.connection = Some(c);
                    entry.status = ServerStatus::Running;
                    proof {
                        assert forall|a: int, b: int|
                            0 <= a < b < self.servers@.len() implies (
                        #[trigger] self.servers@[a]).config.id@ != (
                        #[trigger] self.servers@[b]).config.id@ by {
                            assert(old(self).servers@[a].config.id@ != old(self).servers@[b].config.id@);
                        }
                        assert(self.servers@ =~= old(self).servers@.update(
                            i0,
                            running_entry(old(self).servers@[i0], self.servers@[i0].connection->0),
                        ));
                    }
                    Ok(())
                } else {
                    self.set_status(
                        i,
                        ServerStatus::Error(
                            String::from_str("connection did not reach the ready state"),
                        ),
                    );
                    Err(
                        McpServiceError::TransportError(
                            String::from_str("connection did not reach the ready state"),
                        ),
                    )
                }
            },
            StartOutcome::Failed(m) => {
                self.set_status(i, ServerStatus::Error(m));
                Ok(())
            },
        }
    }

    /// Stops a Running server: its connection is closed and dropped, the
    /// status becomes Stopped, and the ids of the requests that were still in
    /// flight are returned so their callers can be failed. On a server that
    /// is not Running this is a no-op.
    pub fn stop_server(&mut self, id: &str) -> (r: Result<Vec<u64>, McpServiceError>)
        requires
            old(self).wf(),
        ensures
            final(self).wf(),
            !old(self).has_server(id@) ==> (r matches Err(McpServiceError::ServerNotFound(_))
                && *final(self) == *old(self)),
            forall|i: int|
                0 <= i < old(self).servers@.len() && (#[trigger] old(self).servers@[i]).config.id@
                    == id@ ==> {
                    let e = old(self).servers@[i];
                    &&& (e.status is Running ==> (r matches Ok(ids) && ids@
                        == e.connection->0.pending@.map_values(
                        |p: (u64, crate::connection::RequestKind)| p.0,
                    ) && final(self).servers@ == old(self).servers@.update(i, stopped_entry(e))))
                    &&& (!(e.status is Running) ==> (r matches Ok(ids) && ids@.len() == 0 && *final(self) == *old(self)))
                },
    {
        let i: usize = match self.find_index(id) {
            None => {
                return Err(McpServiceError::ServerNotFound(id.to_owned()));
            },
            Some(i) => i,
        };
        let ghost i0: int = i as int;
        proof {
            assert forall|k: int|
                0 <= k < old(self).servers@.len() && (#[trigger] old(self).servers@[k]).config.id@
                    == id@ implies k == i0 by {
                old(self).lemma_unique_index(k, i0);
            }
        }
        if !matches!(self.servers[i].status, ServerStatus::Running) {
            return Ok(Vec::new());
        }
        let entry = &mut self.servers[i];
        let ids: Vec<u64> = match &mut entry.connection {
            Some(c) => c.close(),
            None => {
                proof {
                    assert(false);
                }
                Vec::new()
            },
        };
        entry.connection = None;
        entry.status = ServerStatus::Stopped;
        proof {
            assert forall|a: int, b: int|
                0 <= a < b < self.servers@.len() implies (#[trigger] self.servers@[a]).config.id@
                != (#[trigger] self.servers@[b]).config.id@ by {
                assert(old(self).servers@[a].config.id@ != old(self).servers@[b].config.id@);
            }
            assert(self.servers@ =~= old(self).servers@.update(
                i0,
                stopped_entry(old(self).servers@[i0]),
            ));
        }
        Ok(ids)
    }

    /// The ids of every server configured to start with the application, in
    /// configuration order, each id once.
    pub fn auto_start_ids(&self) -> (r: Vec<String>)
        ensures
            views_of(r@) == auto_start_ids_of(self.servers@),
            forall|k: int| 0 <= k < r@.len() ==> self.is_auto_start_id((#[trigger] r@[k])@),
            forall|i: int|
                0 <= i < self.servers@.len() && self.auto_start_selected(i)
                    ==> crate::text::seq_contains_str(r@, (#[trigger] self.servers@[i]).config.id@),
    {
        let n: usize = self.servers.len();
        let mut out: Vec<String> = Vec::new();
        let mut i: usize = 0;
        proof {
            assert(self.servers@.skip(0) =~= self.servers@);
            assert(views_of(out@) =~= Seq::<Seq<char>>::empty());
        }
        while i < n
            invariant
                n == self.servers@.len(),
                i <= n,
                auto_start_ids_of(self.servers@) == views_of(out@) + auto_start_ids_of(
                    self.servers@.skip(i as int),
                ),
                forall|k: int| 0 <= k < out@.len() ==> self.is_auto_start_id((#[trigger] out@[k])@),
                forall|j: int|
                    0 <= j < i && self.auto_start_selected(j) ==> crate::text::seq_contains_str(
                        out@,
                        (#[trigger] self.servers@[j]).config.id@,
                    ),
            decreases n - i,
        {
            let ghost prev = out@;
            let ghost rest = self.servers@.skip(i as int);
            proof {
                assert(rest[0] == self.servers@[i as int]);
                assert(rest.drop_first() =~= self.servers@.skip(i + 1));
            }
            if self.servers[i].config.enabled && self.servers[i].config.auto_start {
                out.push(self.servers[i].config.id.clone());
                proof {
                    assert(self.servers@[i as int].config.id@ == out@[prev.len() as int]@
                        && self.auto_start_selected(i as int));
                    assert(views_of(out@) =~= views_of(prev) + seq![
                        self.servers@[i as int].config.id@,
                    ]);
                    assert((views_of(prev) + seq![self.servers@[i as int].config.id@])
                        + auto_start_ids_of(self.servers@.skip(i + 1)) =~= views_of(prev) + (seq![
                        self.servers@[i as int].config.id@,
                    ] + auto_start_ids_of(self.servers@.skip(i + 1))));
                }
            } else {
                proof {
                    assert(Seq::<Seq<char>>::empty() + auto_start_ids_of(self.servers@.skip(i + 1))
                        =~= auto_start_ids_of(self.servers@.skip(i + 1)));
                }
            }
            proof {
                assert forall|k: int|
                    0 <= k < out@.len() implies self.is_auto_start_id((#[trigger] out@[k])@) by {
                    if k < prev.len() {
                        assert(out@[k] == prev[k]);
                        assert(self.is_auto_start_id(prev[k]@));
                    } else {
                        assert(self.is_auto_start_id(out@[k]@));
                    }
                }
                assert forall|j: int|
                    0 <= j < i + 1 && self.auto_start_selected(j) implies crate::text::seq_contains_str(
                    out@,
                    (#[trigger] self.servers@[j]).config.id@,
                ) by {
                    if j < i {
                        let k = choose|k: int|
                            0 <= k < prev.len() && (#[trigger] prev[k])@
                                == self.servers@[j].config.id@;
                        assert(out@[k]@ == self.servers@[j].config.id@);
                    } else {
                        assert(out@[out@.len() - 1]@ == self.servers@[j].config.id@);
                    }
                }
            }
            i = i + 1;
        }
        proof {
            assert(self.servers@.skip(n as int) =~= Seq::<ServerEntry>::empty());
            assert(views_of(out@) + Seq::<Seq<char>>::empty() =~= views_of(out@));
        }
        out
    }

    /// The ids a non-destructive initialization would start, in configuration
    /// order, each id once: configured to auto-start and still Uninitialized.
    /// Servers already Running, in Error, Stopped or Disabled are never
    /// selected.
    pub fn non_destructive_start_ids(&self) -> (r: Vec<String>)
        ensures
            views_of(r@) == non_destructive_ids_of(self.servers@),
            forall|k: int| 0 <= k < r@.len() ==> self.is_non_destructive_id((#[trigger] r@[k])@),
            forall|i: int|
                0 <= i < self.servers@.len() && self.non_destructive_selected(i)
                    ==> crate::text::seq_contains_str(r@, (#[trigger] self.servers@[i]).config.id@),
    {
        let n: usize = self.servers.len();
        let mut out: Vec<String> = Vec::new();
        let mut i: usize = 0;
        proof {
            assert(self.servers@.skip(0) =~= self.servers@);
            assert(views_of(out@) =~= Seq::<Seq<char>>::empty());
        }
        while i < n
            invariant
                n == self.servers@.len(),
                i <= n,
                non_destructive_ids_of(self.servers@) == views_of(out@) + non_destructive_ids_of(
                    self.servers@.skip(i as int),
                ),
                forall|k: int|
                    0 <= k < out@.len() ==> self.is_non_destructive_id((#[trigger] out@[k])@),
                forall|j: int|
                    0 <= j < i && self.non_destructive_selected(j)
                        ==> crate::text::seq_contains_str(
                        out@,
                        (#[trigger] self.servers@[j]).config.id@,
                    ),
            decreases n - i,
        {
            let ghost prev = out@;
            let ghost rest = self.servers@.skip(i as int);
            proof {
                assert(rest[0] == self.servers@[i as int]);
                assert(rest.drop_first() =~= self.servers@.skip(i + 1));
            }
            if self.servers[i].config.enabled && self.servers[i].config.auto_start && matches!(
                self.servers[i].status,
                ServerStatus::Uninitialized,
            ) {
                out.push(self.servers[i].config.id.clone());
                proof {
                    assert(self.servers@[i as int].config.id@ == out@[prev.len() as int]@
                        && self.non_destructive_selected(i as int));
                    assert(views_of(out@) =~= views_of(prev) + seq![
                        self.servers@[i as int].config.id@,
                    ]);
                    assert((views_of(prev) + seq![self.servers@[i as int].config.id@])
                        + non_destructive_ids_of(self.servers@.skip(i + 1)) =~= views_of(prev) + (
                    seq![self.servers@[i as int].config.id@] + non_destructive_ids_of(
                        self.servers@.skip(i + 1),
                    )));
                }
            } else {
                proof {
                    assert(Seq::<Seq<char>>::empty() + non_destructive_ids_of(
                        self.servers@.skip(i + 1),
                    ) =~= non_destructive_ids_of(self.servers@.skip(i + 1)));
                }
            }
            proof {
                assert forall|k: int|
                    0 <= k < out@.len() implies self.is_non_destructive_id((#[trigger] out@[k])@) by {
                    if k < prev.len() {
                        assert(out@[k] == prev[k]);
                        assert(self.is_non_destructive_id(prev[k]@));
                    } else {
                        assert(self.is_non_destructive_id(out@[k]@));
                    }
                }
                assert forall|j: int|
                    0 <= j < i + 1 && self.non_destructive_selected(j) implies crate::text::seq_contains_str(
                    out@,
                    (#[trigger] self.servers@[j]).config.id@,
                ) by {
                    if j < i {
                        let k = choose|k: int|
                            0 <= k < prev.len() && (#[trigger] prev[k])@
                                == self.servers@[j].config.id@;
                        assert(out@[k]@ == self.servers@[j].config.id@);
                    } else {
                        assert(out@[out@.len() - 1]@ == self.servers@[j].config.id@);
                    }
                }
            }
            i = i + 1;
        }
        proof {
            assert(self.servers@.skip(n as int) =~= Seq::<ServerEntry>::empty());
            assert(views_of(out@) + Seq::<Seq<char>>::empty() =~= views_of(out@));
        }
        out
    }
}

/// A non-destructive initialization never selects a server that is already
/// Running or in Error: whatever id it starts, that id is not theirs, so — by
/// the per-start frame — their entries are never changed.
pub proof fn lemma_non_destructive_spares_live_servers(m: ServerManager, i: int, id: Seq<char>)
    requires
        m.wf(),
        0 <= i < m.servers@.len(),
        m.servers@[i].status is Running || m.servers@[i].status is Error,
        exists|j: int|
            0 <= j < m.servers@.len() && (#[trigger] m.servers@[j]).config.id@ == id
                && m.non_destructive_selected(j),
    ensures
        m.servers@[i].config.id@ != id,
{
    let j = choose|j: int|
        0 <= j < m.servers@.len() && (#[trigger] m.servers@[j]).config.id@ == id
            && m.non_destructive_selected(j);
    if i != j {
        if i < j {
            assert(m.servers@[i].config.id@ != m.servers@[j].config.id@);
        } else {
            assert(m.servers@[j].config.id@ != m.servers@[i].config.id@);
        }
    }
}

/// `launch_post` reads only the configuration of the entry at `i` in its
/// pre-state; two pre-states that differ at most in that entry's status and
/// connection give the same launch contract.
pub proof fn launch_post_pre_entry_irrelevant(
    a: ServerManager,
    b: ServerManager,
    post: ServerManager,
    r: Result<StartAction, McpServiceError>,
    i: int,
    fs: FsSnapshot,
    runtime: RuntimeManager,
)
    requires
        0 <= i < a.servers@.len(),
        a.servers@.len() == b.servers@.len(),
        a.servers@[i].config == b.servers@[i].config,
        forall|j: int| 0 <= j < a.servers@.len() && j != i ==> a.servers@[j] == b.servers@[j],
        launch_post(a, post, r, i, fs, runtime),
    ensures
        launch_post(b, post, r, i, fs, runtime),
{
    let cfg = a.servers@[i].config;
    if !(cfg.server_type is Remote) && cfg.command is Some && resolvable(
        fs,
        runtime.runtime_root@,
        cfg.command->0@,
    ) {
        assert(a.servers@.update(
            i,
            ServerEntry { config: cfg, status: ServerStatus::Starting, connection: None },
        ) =~= b.servers@.update(
            i,
            ServerEntry { config: cfg, status: ServerStatus::Starting, connection: None },
        ));
    }
    if cfg.server_type is Remote && cfg.url is Some {
        assert(a.servers@.update(
            i,
            ServerEntry { config: cfg, status: ServerStatus::Starting, connection: None },
        ) =~= b.servers@.update(
            i,
            ServerEntry { config: cfg, status: ServerStatus::Starting, connection: None },
        ));
    }
}


/// `b` shows the very same servers and client declaration as `a`.
pub open spec fn same_manager_views(a: ServerManager, b: ServerManager) -> bool {
    &&& b.servers@ == a.servers@
    &&& b.client_version == a.client_version
    &&& b.client_capabilities == a.client_capabilities
}

/// The status surface of one configured server, for display.
#[derive(Debug, Clone)]
pub struct MCPServerInfo {
    /// The server's id.
    pub id: String,
    /// Display name.
    pub name: String,
    /// The lifecycle status, as a label.
    pub status: String,
    /// The server type, as a label.
    pub server_type: String,
    /// Whether the server is enabled.
    pub enabled: bool,
    /// Whether the server starts with the application.
    pub auto_start: bool,
}

/// The label of a lifecycle status; an Error carries its reason.
pub open spec fn status_label_of(s: ServerStatus) -> Seq<char> {
    match s {
        ServerStatus::Uninitialized => "Uninitialized"@,
        ServerStatus::Starting => "Starting"@,
        ServerStatus::Running => "Running"@,
        ServerStatus::Stopping => "Stopping"@,
        ServerStatus::Stopped => "Stopped"@,
        ServerStatus::Disabled => "Disabled"@,
        ServerStatus::Error(m) => "Error: "@ + m@,
    }
}

/// Renders a lifecycle status as a label.
pub fn status_label(s: &ServerStatus) -> (r: String)
    ensures
        r@ == status_label_of(*s),
{
    match s {
        ServerStatus::Uninitialized => "Uninitialized".to_owned(),
        ServerStatus::Starting => "Starting".to_owned(),
        ServerStatus::Running => "Running".to_owned(),
        ServerStatus::Stopping => "Stopping".to_owned(),
        ServerStatus::Stopped => "Stopped".to_owned(),
        ServerStatus::Disabled => "Disabled".to_owned(),
        ServerStatus::Error(m) => String::from_str("Error: ").concat(m.as_str()),
    }
}

/// The label of a server type.
pub open spec fn server_type_label_of(t: ServerType) -> Seq<char> {
    match t {
        ServerType::Local => "Local"@,
        ServerType::Container => "Container"@,
        ServerType::Remote => "Remote"@,
    }
}

/// Renders a server type as a label.
pub fn server_type_label(t: &ServerType) -> (r: String)
    ensures
        r@ == server_type_label_of(*t),
{
    match t {
        ServerType::Local => "Local".to_owned(),
        ServerType::Container => "Container".to_owned(),
        ServerType::Remote => "Remote".to_owned(),
    }
}

/// The status derived for a configured server with no live state yet:
/// Stopped when disabled, Starting when an auto-start is pending,
/// Uninitialized otherwise.
pub fn fallback_status(enabled: bool, auto_start: bool) -> (r: ServerStatus)
    ensures
        !enabled ==> r is Stopped,
        enabled && auto_start ==> r is Starting,
        enabled && !auto_start ==> r is Uninitialized,
{
    if !enabled {
        ServerStatus::Stopped
    } else if auto_start {
        ServerStatus::Starting
    } else {
        ServerStatus::Uninitialized
    }
}

/// A passthrough-eligible method: the only three JSON-RPC methods an outside
/// caller may forward to a server.
#[derive(Debug, Clone, Copy, PartialEq, Eq, Structural)]
pub enum PassthroughMethod {
    /// `tools/call`.
    ToolsCall,
    /// `resources/read`.
    ResourcesRead,
    /// `ping`.
    Ping,
}

/// Classifies a passthrough method name; anything but the three eligible
/// methods is refused.
pub fn classify_passthrough(method: &str) -> (r: Option<PassthroughMethod>)
    ensures
        method@ == "tools/call"@ ==> r == Some(PassthroughMethod::ToolsCall),
        method@ != "tools/call"@ && method@ == "resources/read"@ ==> r == Some(
            PassthroughMethod::ResourcesRead,
        ),
        method@ != "tools/call"@ && method@ != "resources/read"@ && method@ == "ping"@ ==> r
            == Some(PassthroughMethod::Ping),
        method@ != "tools/call"@ && method@ != "resources/read"@ && method@ != "ping"@ ==> r
            is None,
{
    if str_eq(method, "tools/call") {
        Some(PassthroughMethod::ToolsCall)
    } else if str_eq(method, "resources/read") {
        Some(PassthroughMethod::ResourcesRead)
    } else if str_eq(method, "ping") {
        Some(PassthroughMethod::Ping)
    } else {
        None
    }
}

/// The response returned for a passthrough request whose method is not
/// eligible: a MethodNotFound error naming the method, without any server
/// contact.
pub fn passthrough_reject(id: u64, method: &str) -> (r: MCPResponse)
    ensures
        r.id == id,
        r.result is None,
        r.error matches Some(e) && e.code == crate::protocol::METHOD_NOT_FOUND && e.message@
            == "Method not found: "@ + method@,
{
    MCPResponse::error(id, MCPError::method_not_found(method))
}

/// A request to fetch an interactive UI resource from a server.
#[derive(Debug, Clone)]
pub struct FetchMCPAppResourceRequest {
    /// The id of the server that owns the resource.
    pub server_id: String,
    /// The full resource URI; must use the `ui://` scheme.
    pub resource_uri: String,
}

/// Whether a URI uses the interactive-UI scheme.
pub open spec fn is_ui_uri(uri: Seq<char>) -> bool {
    uri.len() >= "ui://"@.len() && uri.subrange(0, "ui://"@.len() as int) == "ui://"@
}

/// Tests a URI for the interactive-UI scheme.
pub fn is_ui_resource_uri(uri: &str) -> (r: bool)
    ensures
        r == is_ui_uri(uri@),
{
    crate::text::starts_with(uri, "ui://")
}

impl ServerManager {
    /// The status surface over every configured server, in configuration
    /// order.
    pub fn server_infos(&self) -> (r: Vec<MCPServerInfo>)
        ensures
            r@.len() == self.servers@.len(),
            forall|k: int|
                0 <= k < r@.len() ==> {
                    let e = self.servers@[k];
                    &&& (#[trigger] r@[k]).id@ == e.config.id@
                    &&& r@[k].name@ == e.config.name@
                    &&& r@[k].status@ == status_label_of(e.status)
                    &&& r@[k].server_type@ == server_type_label_of(e.config.server_type)
                    &&& r@[k].enabled == e.config.enabled
                    &&& r@[k].auto_start == e.config.auto_start
                },
    {
        let n: usize = self.servers.len();
        let mut out: Vec<MCPServerInfo> = Vec::new();
        let mut i: usize = 0;
        while i < n
            invariant
                n == self.servers@.len(),
                i <= n,
                out@.len() == i,
                forall|k: int|
                    0 <= k < i ==> {
                        let e = self.servers@[k];
                        &&& (#[trigger] out@[k]).id@ == e.config.id@
                        &&& out@[k].name@ == e.config.name@
                        &&& out@[k].status@ == status_label_of(e.status)
                        &&& out@[k].server_type@ == server_type_label_of(e.config.server_type)
                        &&& out@[k].enabled == e.config.enabled
                        &&& out@[k].auto_start == e.config.auto_start
                    },
            decreases n - i,
        {
            let entry = &self.servers[i];
            out.push(
                MCPServerInfo {
                    id: entry.config.id.clone(),
                    name: entry.config.name.clone(),
                    status: status_label(&entry.status),
                    server_type: server_type_label(&entry.config.server_type),
                    enabled: entry.config.enabled,
                    auto_start: entry.config.auto_start,
                },
            );
            i = i + 1;
        }
        out
    }

    /// Begins a `tools/call` on the Running server with this id. The guard
    /// checks the negotiated tools capability only — never the tool's name —
    /// and a refused call changes nothing.
    pub fn call_tool_begin(&mut self, id: &str, params: ToolsCallParams) -> (r: Result<
        OutboundRequest,
        McpServiceError,
    >)
        requires
            old(self).wf(),
        ensures
            final(self).wf(),
            !old(self).has_server(id@) ==> (r matches Err(McpServiceError::NotConnected(_))
                && *final(self) == *old(self)),
            forall|i: int|
                0 <= i < old(self).servers@.len() && (#[trigger] old(self).servers@[i]).config.id@
                    == id@ ==> {
                    let e = old(self).servers@[i];
                    &&& start_frame(*old(self), *final(self), i)
                    &&& (!(e.status is Running) ==> (r matches Err(McpServiceError::NotConnected(_))
                        && *final(self) == *old(self)))
                    &&& (e.status is Running ==> {
                        let c0 = e.connection->0;
                        &&& (!c0.tools_allowed() ==> (r matches Err(
                            McpServiceError::CapabilityError(_),
                        ) && same_manager_views(*old(self), *final(self))))
                        &&& (c0.tools_allowed() && c0.next_id == u64::MAX ==> (r matches Err(
                            McpServiceError::ProtocolError(_),
                        ) && same_manager_views(*old(self), *final(self))))
                        &&& (c0.tools_allowed() && c0.next_id < u64::MAX ==> (r matches Ok(q) && {
                            &&& q.jsonrpc@ == "2.0"@
                            &&& q.id == c0.next_id
                            &&& q.method@ == "tools/call"@
                            &&& q.params matches RequestPayload::ToolsCall(p) && p == params
                            &&& final(self).servers@[i].connection matches Some(c1) && enqueued(
                                c0,
                                c1,
                                RequestKind::ToolsCall,
                            )
                            &&& final(self).servers@[i].status is Running
                            &&& final(self).servers@[i].config == e.config
                        }))
                    })
                },
    {
        let i: usize = match self.find_index(id) {
            None => {
                return Err(McpServiceError::NotConnected(id.to_owned()));
            },
            Some(i) => i,
        };
        let ghost i0: int = i as int;
        proof {
            assert forall|k: int|
                0 <= k < old(self).servers@.len() && (#[trigger] old(self).servers@[k]).config.id@
                    == id@ implies k == i0 by {
                old(self).lemma_unique_index(k, i0);
            }
        }
        if !matches!(self.servers[i].status, ServerStatus::Running) {
            return Err(McpServiceError::NotConnected(id.to_owned()));
        }
        let entry = &mut self.servers[i];
        let r = match &mut entry.connection {
            Some(c) => c.begin_tools_call(params),
            None => {
                proof {
                    assert(false);
                }
                Err(McpServiceError::NotConnected(String::new()))
            },
        };
        proof {
            assert forall|a: int, b: int|
                0 <= a < b < self.servers@.len() implies (#[trigger] self.servers@[a]).config.id@
                != (#[trigger] self.servers@[b]).config.id@ by {
                assert(old(self).servers@[a].config.id@ != old(self).servers@[b].config.id@);
            }
            if r is Err {
                assert(self.servers@ =~= old(self).servers@);
            }
        }
        r
    }

    /// Begins a `resources/read` on the Running server with this id, gated on
    /// the negotiated resources capability.
    pub fn read_resource_begin(&mut self, id: &str, params: ResourcesReadParams) -> (r: Result<
        OutboundRequest,
        McpServiceError,
    >)
        requires
            old(self).wf(),
        ensures
            final(self).wf(),
            !old(self).has_server(id@) ==> (r matches Err(McpServiceError::NotConnected(_))
                && *final(self) == *old(self)),
            forall|i: int|
                0 <= i < old(self).servers@.len() && (#[trigger] old(self).servers@[i]).config.id@
                    == id@ ==> {
                    let e = old(self).servers@[i];
                    &&& start_frame(*old(self), *final(self), i)
                    &&& (!(e.status is Running) ==> (r matches Err(McpServiceError::NotConnected(_))
                        && *final(self) == *old(self)))
                    &&& (e.status is Running ==> {
                        let c0 = e.connection->0;
                        &&& (!c0.resources_allowed() ==> (r matches Err(
                            McpServiceError::CapabilityError(_),
                        ) && same_manager_views(*old(self), *final(self))))
                        &&& (c0.resources_allowed() && c0.next_id == u64::MAX ==> (r matches Err(
                            McpServiceError::ProtocolError(_),
                        ) && same_manager_views(*old(self), *final(self))))
                        &&& (c0.resources_allowed() && c0.next_id < u64::MAX ==> (r matches Ok(q)
                            && {
                            &&& q.jsonrpc@ == "2.0"@
                            &&& q.id == c0.next_id
                            &&& q.method@ == "resources/read"@
                            &&& q.params matches RequestPayload::ResourcesRead(p) && p == params
                            &&& final(self).servers@[i].connection matches Some(c1) && enqueued(
                                c0,
                                c1,
                                RequestKind::ResourcesRead,
                            )
                            &&& final(self).servers@[i].status is Running
                            &&& final(self).servers@[i].config == e.config
                        }))
                    })
                },
    {
        let i: usize = match self.find_index(id) {
            None => {
                return Err(McpServiceError::NotConnected(id.to_owned()));
            },
            Some(i) => i,
        };
        let ghost i0: int = i as int;
        proof {
            assert forall|k: int|
                0 <= k < old(self).servers@.len() && (#[trigger] old(self).servers@[k]).config.id@
                    == id@ implies k == i0 by {
                old(self).lemma_unique_index(k, i0);
            }
        }
        if !matches!(self.servers[i].status, ServerStatus::Running) {
            return Err(McpServiceError::NotConnected(id.to_owned()));
        }
        let entry = &mut self.servers[i];
        let r = match &mut entry.connection {
            Some(c) => c.begin_resources_read(params),
            None => {
                proof {
                    assert(false);
                }
                Err(McpServiceError::NotConnected(String::new()))
            },
        };
        proof {
            assert forall|a: int, b: int|
                0 <= a < b < self.servers@.len() implies (#[trigger] self.servers@[a]).config.id@
                != (#[trigger] self.servers@[b]).config.id@ by {
                assert(old(self).servers@[a].config.id@ != old(self).servers@[b].config.id@);
            }
            if r is Err {
                assert(self.servers@ =~= old(self).servers@);
            }
        }
        r
    }

    /// Begins a `ping` on the Running server with this id; every Ready
    /// session accepts pings.
    pub fn ping_begin(&mut self, id: &str) -> (r: Result<OutboundRequest, McpServiceError>)
        requires
            old(self).wf(),
        ensures
            final(self).wf(),
            !old(self).has_server(id@) ==> (r matches Err(McpServiceError::NotConnected(_))
                && *final(self) == *old(self)),
            forall|i: int|
                0 <= i < old(self).servers@.len() && (#[trigger] old(self).servers@[i]).config.id@
                    == id@ ==> {
                    let e = old(self).servers@[i];
                    &&& start_frame(*old(self), *final(self), i)
                    &&& (!(e.status is Running) ==> (r matches Err(McpServiceError::NotConnected(_))
                        && *final(self) == *old(self)))
                    &&& (e.status is Running ==> {
                        let c0 = e.connection->0;
                        &&& (c0.next_id == u64::MAX ==> (r matches Err(
                            McpServiceError::ProtocolError(_),
                        ) && same_manager_views(*old(self), *final(self))))
                        &&& (c0.next_id < u64::MAX ==> (r matches Ok(q) && {
                            &&& q.jsonrpc@ == "2.0"@
                            &&& q.id == c0.next_id
                            &&& q.method@ == "ping"@
                            &&& q.params is Ping
                            &&& final(self).servers@[i].connection matches Some(c1) && enqueued(
                                c0,
                                c1,
                                RequestKind::Ping,
                            )
                            &&& final(self).servers@[i].status is Running
                            &&& final(self).servers@[i].config == e.config
                        }))
                    })
                },
    {
        let i: usize = match self.find_index(id) {
            None => {
                return Err(McpServiceError::NotConnected(id.to_owned()));
            },
            Some(i) => i,
        };
        let ghost i0: int = i as int;
        proof {
            assert forall|k: int|
                0 <= k < old(self).servers@.len() && (#[trigger] old(self).servers@[k]).config.id@
                    == id@ implies k == i0 by {
                old(self).lemma_unique_index(k, i0);
            }
        }
        if !matches!(self.servers[i].status, ServerStatus::Running) {
            return Err(McpServiceError::NotConnected(id.to_owned()));
        }
        let entry = &mut self.servers[i];
        let r = match &mut entry.connection {
            Some(c) => c.begin_ping(),
            None => {
                proof {
                    assert(false);
                }
                Err(McpServiceError::NotConnected(String::new()))
            },
        };
        proof {
            assert forall|a: int, b: int|
                0 <= a < b < self.servers@.len() implies (#[trigger] self.servers@[a]).config.id@
                != (#[trigger] self.servers@[b]).config.id@ by {
                assert(old(self).servers@[a].config.id@ != old(self).servers@[b].config.id@);
            }
            if r is Err {
                assert(self.servers@ =~= old(self).servers@);
            }
        }
        r
    }

    /// Correlates a response id on the Running server with this id: a
    /// matching pending request is removed and its kind returned; an unknown
    /// id is dropped and counted as an anomaly, never fatal.
    pub fn accept_response(&mut self, id: &str, response_id: u64) -> (r: Result<
        Option<RequestKind>,
        McpServiceError,
    >)
        requires
            old(self).wf(),
        ensures
            final(self).wf(),
            !old(self).has_server(id@) ==> (r matches Err(McpServiceError::NotConnected(_))
                && *final(self) == *old(self)),
            forall|i: int|
                0 <= i < old(self).servers@.len() && (#[trigger] old(self).servers@[i]).config.id@
                    == id@ ==> {
                    let e = old(self).servers@[i];
                    &&& start_frame(*old(self), *final(self), i)
                    &&& (!(e.status is Running) ==> (r matches Err(McpServiceError::NotConnected(_))
                        && *final(self) == *old(self)))
                    &&& (e.status is Running ==> {
                        let c0 = e.connection->0;
                        &&& final(self).servers@[i].status is Running
                        &&& final(self).servers@[i].config == e.config
                        &&& (final(self).servers@[i].connection matches Some(c1) && {
                            &&& (c0.pending_has(response_id) ==> (r matches Ok(k) && k is Some
                                && c1.anomalies == c0.anomalies))
                            &&& (!c0.pending_has(response_id) ==> (r matches Ok(k) && k is None
                                && c1.pending@ == c0.pending@ && c1.anomalies == if c0.anomalies
                                < u64::MAX {
                                c0.anomalies + 1
                            } else {
                                c0.anomalies as int
                            }))
                        })
                    })
                },
    {
        let i: usize = match self.find_index(id) {
            None => {
                return Err(McpServiceError::NotConnected(id.to_owned()));
            },
            Some(i) => i,
        };
        let ghost i0: int = i as int;
        proof {
            assert forall|k: int|
                0 <= k < old(self).servers@.len() && (#[trigger] old(self).servers@[k]).config.id@
                    == id@ implies k == i0 by {
                old(self).lemma_unique_index(k, i0);
            }
        }
        if !matches!(self.servers[i].status, ServerStatus::Running) {
            return Err(McpServiceError::NotConnected(id.to_owned()));
        }
        let entry = &mut self.servers[i];
        let r: Option<RequestKind> = match &mut entry.connection {
            Some(c) => c.accept_response_id(response_id),
            None => {
                proof {
                    assert(false);
                }
                None
            },
        };
        proof {
            assert forall|a: int, b: int|
                0 <= a < b < self.servers@.len() implies (#[trigger] self.servers@[a]).config.id@
                != (#[trigger] self.servers@[b]).config.id@ by {
                assert(old(self).servers@[a].config.id@ != old(self).servers@[b].config.id@);
            }
        }
        Ok(r)
    }

    /// Forwards a notification to the Running server with this id; its
    /// pending table is never touched, and only a list-changed method clears
    /// the matching cache. A notification for a server that is not Running is
    /// dropped.
    pub fn handle_server_notification(&mut self, id: &str, method: &str)
        requires
            old(self).wf(),
        ensures
            final(self).wf(),
            !old(self).has_server(id@) ==> *final(self) == *old(self),
            forall|i: int|
                0 <= i < old(self).servers@.len() && (#[trigger] old(self).servers@[i]).config.id@
                    == id@ ==> {
                    let e = old(self).servers@[i];
                    &&& start_frame(*old(self), *final(self), i)
                    &&& (!(e.status is Running) ==> *final(self) == *old(self))
                    &&& (e.status is Running ==> {
                        let c0 = e.connection->0;
                        &&& final(self).servers@[i].status is Running
                        &&& final(self).servers@[i].config == e.config
                        &&& (final(self).servers@[i].connection matches Some(c1) && c1.pending@
                            == c0.pending@ && c1.anomalies == c0.anomalies && c1.capabilities
                            == c0.capabilities)
                    })
                },
    {
        let i: usize = match self.find_index(id) {
            None => {
                return;
            },
            Some(i) => i,
        };
        let ghost i0: int = i as int;
        proof {
            assert forall|k: int|
                0 <= k < old(self).servers@.len() && (#[trigger] old(self).servers@[k]).config.id@
                    == id@ implies k == i0 by {
                old(self).lemma_unique_index(k, i0);
            }
        }
        if !matches!(self.servers[i].status, ServerStatus::Running) {
            return;
        }
        let entry = &mut self.servers[i];
        match &mut entry.connection {
            Some(c) => {
                c.handle_notification(method);
            },
            None => {
                proof {
                    assert(false);
                }
            },
        }
        proof {
            assert forall|a: int, b: int|
                0 <= a < b < self.servers@.len() implies (#[trigger] self.servers@[a]).config.id@
                != (#[trigger] self.servers@[b]).config.id@ by {
                assert(old(self).servers@[a].config.id@ != old(self).servers@[b].config.id@);
            }
        }
    }

    /// Begins fetching an interactive UI resource: a URI outside the `ui://`
    /// scheme is rejected before any server or connection is consulted; an
    /// accepted URI is read over the owning server's connection.
    pub fn fetch_ui_resource_begin(&mut self, request: &FetchMCPAppResourceRequest) -> (r: Result<
        OutboundRequest,
        McpServiceError,
    >)
        requires
            old(self).wf(),
        ensures
            final(self).wf(),
            !is_ui_uri(request.resource_uri@) ==> (r matches Err(McpServiceError::ProtocolError(_))
                && *final(self) == *old(self)),
            is_ui_uri(request.resource_uri@) && !old(self).has_server(request.server_id@) ==> (r
                matches Err(McpServiceError::NotConnected(_)) && *final(self) == *old(self)),
            is_ui_uri(request.resource_uri@) ==> forall|i: int|
                0 <= i < old(self).servers@.len() && (#[trigger] old(self).servers@[i]).config.id@
                    == request.server_id@ ==> {
                    let e = old(self).servers@[i];
                    &&& start_frame(*old(self), *final(self), i)
                    &&& (!(e.status is Running) ==> (r matches Err(McpServiceError::NotConnected(_))
                        && *final(self) == *old(self)))
                    &&& (e.status is Running ==> {
                        let c0 = e.connection->0;
                        &&& (!c0.resources_allowed() ==> (r matches Err(
                            McpServiceError::CapabilityError(_),
                        ) && same_manager_views(*old(self), *final(self))))
                        &&& (c0.resources_allowed() && c0.next_id == u64::MAX ==> (r matches Err(
                            McpServiceError::ProtocolError(_),
                        ) && same_manager_views(*old(self), *final(self))))
                        &&& (c0.resources_allowed() && c0.next_id < u64::MAX ==> (r matches Ok(q)
                            && {
                            &&& q.method@ == "resources/read"@
                            &&& q.params matches RequestPayload::ResourcesRead(p) && p.uri@
                                == request.resource_uri@
                            &&& final(self).servers@[i].connection matches Some(c1) && enqueued(
                                c0,
                                c1,
                                RequestKind::ResourcesRead,
                            )
                        }))
                    })
                },
    {
        if !is_ui_resource_uri(request.resource_uri.as_str()) {
            return Err(
                McpServiceError::ProtocolError(
                    String::from_str("resource uri must use the ui scheme"),
                ),
            );
        }
        let params = ResourcesReadParams { uri: request.resource_uri.clone() };
        self.read_resource_begin(request.server_id.as_str(), params)
    }
}

} // verus!
