//! The manager: the registry of live connections and the decisions of their
//! life cycle.

use crate::config::MCPServerConfig;
use crate::error::ManagerError;
use crate::registry::{
    has_name, holds_at, lemma_slot_unique, names_distinct, names_of, slot_of, with_entry,
    without, Entries, MCPConnection,
};
use crate::text::{prefixed, same_text};
use vstd::prelude::*;

verus! {

/// Owns the connections, one per server name.
///
/// The manager decides; it neither starts a process nor talks to a server.
/// Where a step needs either, a function hands back what is to be done, and
/// the outcome is handed to the function that completes the step.
#[derive(Debug, PartialEq, Eq)]
pub struct MCPServerManager<C> {
    connections: Vec<(String, MCPConnection<C>)>,
}

/// What is needed to start the child process of a `stdio` server.
#[derive(Debug, PartialEq, Eq)]
pub struct SpawnRequest {
    /// The name under which the connection will be registered.
    pub server: String,
    pub command: String,
    /// The arguments, none where the configuration gave none.
    pub args: Vec<String>,
    /// Variables to lay over the inherited environment, in this order.
    pub env: Vec<(String, String)>,
}

/// What starting a server asks of the caller.
#[derive(Debug, PartialEq, Eq)]
pub enum StartAction {
    /// Start the process, perform the handshake, and hand the outcome to
    /// `complete_start`.
    Spawn(SpawnRequest),
    /// Nothing: the server is reached over the network and runs already. The
    /// text confirms the configuration; no connection is registered.
    Configured(String),
}

/// The confirmation of a start, and the connection that the new one took the
/// place of, if any: it is the caller's to shut down.
#[derive(Debug, PartialEq, Eq)]
pub struct Started<C> {
    pub message: String,
    pub replaced: Option<MCPConnection<C>>,
}

/// The arguments of a configuration, none where it gives none.
pub open spec fn args_of(config: MCPServerConfig) -> Seq<String> {
    match config.args {
        Some(a) => a@,
        None => Seq::empty(),
    }
}

/// The environment of a configuration, empty where it gives none.
pub open spec fn env_of(config: MCPServerConfig) -> Seq<(String, String)> {
    match config.env {
        Some(e) => e@,
        None => Seq::empty(),
    }
}

/// Whether `plan` is the answer to a `stdio` configuration: an error where no
/// command is named, and else the request to start that command.
pub open spec fn is_stdio_plan(config: MCPServerConfig, plan: Result<StartAction, ManagerError>) -> bool {
    match config.command {
        None => {
            &&& plan matches Err(ManagerError::CommandRequired { server })
            &&& server == config.name
        },
        Some(command) => {
            &&& plan matches Ok(StartAction::Spawn(request))
            &&& request.server == config.name
            &&& request.command == command
            &&& request.args@ == args_of(config)
            &&& request.env@ == env_of(config)
        },
    }
}

/// Whether `plan` is the answer to a configuration: by its transport, the
/// plan for `stdio`, a confirmation for `http` and `websocket`, and an error
/// that names the transport for any other.
pub open spec fn is_start_plan(config: MCPServerConfig, plan: Result<StartAction, ManagerError>) -> bool {
    if config.transport@ == "stdio"@ {
        is_stdio_plan(config, plan)
    } else if config.transport@ == "http"@ {
        &&& plan matches Ok(StartAction::Configured(text))
        &&& text@ == "HTTP server configured: "@ + config.name@
    } else if config.transport@ == "websocket"@ {
        &&& plan matches Ok(StartAction::Configured(text))
        &&& text@ == "WebSocket server configured: "@ + config.name@
    } else {
        &&& plan matches Err(ManagerError::UnsupportedTransport { server, transport })
        &&& server@ == config.name@
        &&& transport@ == config.transport@
    }
}

/// The confirmation of a start under `server`.
pub open spec fn started_text(server: Seq<char>) -> Seq<char> {
    "Started and connected to MCP server: "@ + server
}

/// A `stdio` configuration without a command is answered with an error:
/// nothing is to be started.
pub proof fn law_stdio_needs_command(config: MCPServerConfig, plan: Result<StartAction, ManagerError>)
    requires
        is_start_plan(config, plan),
        config.transport@ == "stdio"@,
        config.command is None,
    ensures
        plan matches Err(ManagerError::CommandRequired { server }) && server@ == config.name@,
{
}

/// A `stdio` configuration with a command is answered with the request to
/// start that command under the configuration's name.
pub proof fn law_stdio_with_command_spawns(
    config: MCPServerConfig,
    plan: Result<StartAction, ManagerError>,
)
    requires
        is_start_plan(config, plan),
        config.transport@ == "stdio"@,
        config.command is Some,
    ensures
        plan matches Ok(StartAction::Spawn(request)) && request.server == config.name && Some(
            request.command,
        ) == config.command,
{
}

/// A configuration whose transport is none of `stdio`, `http` and
/// `websocket` is answered with an error that names the transport: nothing
/// is to be started.
pub proof fn law_unknown_transport_fails(
    config: MCPServerConfig,
    plan: Result<StartAction, ManagerError>,
)
    requires
        is_start_plan(config, plan),
        config.transport@ != "stdio"@,
        config.transport@ != "http"@,
        config.transport@ != "websocket"@,
    ensures
        plan matches Err(ManagerError::UnsupportedTransport { server, transport }) && server@
            == config.name@ && transport@ == config.transport@,
{
}

impl<C> View for MCPServerManager<C> {
    type V = Entries<C>;

    closed spec fn view(&self) -> Entries<C> {
        entries_of(self.connections@)
    }
}

/// The stored pairs as contracts see them: each name by its characters.
spec fn entries_of<C>(stored: Seq<(String, MCPConnection<C>)>) -> Entries<C> {
    Seq::new(stored.len(), |i: int| (stored[i].0@, stored[i].1))
}

impl<C> MCPServerManager<C> {
    /// No name is registered twice. This holds of every manager.
    #[verifier::type_invariant]
    pub open spec fn wf(&self) -> bool {
        names_distinct(self@)
    }

    /// A manager with no connection.
    pub fn new() -> (manager: Self)
        ensures
            manager@.len() == 0,
            manager.wf(),
    {
        MCPServerManager { connections: Vec::new() }
    }

    /// The place of `name` in the registry, if it is registered.
    fn position(&self, name: &str) -> (found: Option<usize>)
        ensures
            match found {
                Some(i) => holds_at(self@, name@, i as int) && i < self.connections@.len(),
                None => !has_name(self@, name@),
            },
    {
        let mut i: usize = 0;
        while i < self.connections.len()
            invariant
                i <= self.connections@.len(),
                self@.len() == self.connections@.len(),
                forall|j: int| 0 <= j < i ==> !holds_at(self@, name@, j),
            decreases self.connections@.len() - i,
        {
            if same_text(self.connections[i].0.as_str(), name) {
                return Some(i);
            }
            i += 1;
        }
        None
    }

    /// The connection registered under `server_name`, or the error that says
    /// that there is none.
    pub fn connection(&self, server_name: &str) -> (found: Result<&MCPConnection<C>, ManagerError>)
        ensures
            match found {
                Ok(connection) => has_name(self@, server_name@) && *connection
                    == self@[slot_of(self@, server_name@)].1,
                Err(e) => {
                    &&& !has_name(self@, server_name@)
                    &&& e matches ManagerError::ServerNotFound(n)
                    &&& n@ == server_name@
                },
            },
    {
        match self.position(server_name) {
            Some(i) => {
                proof {
                    use_type_invariant(self);
                    lemma_slot_unique(self@, server_name@, i as int);
                }
                Ok(&self.connections[i].1)
            },
            None => Err(ManagerError::ServerNotFound(server_name.to_owned())),
        }
    }

    /// Whether a connection is registered under `server_name`. This says
    /// that the registry knows the server, not that the server answers.
    pub fn is_server_alive(&self, server_name: &str) -> (alive: bool)
        ensures
            alive == has_name(self@, server_name@),
    {
        self.position(server_name).is_some()
    }

    /// The registered names, in registry order.
    pub fn get_connected_servers(&self) -> (names: Vec<String>)
        ensures
            names@.len() == self@.len(),
            forall|i: int| 0 <= i < names@.len() ==> (#[trigger] names@[i])@ == names_of(self@)[i],
    {
        let mut names: Vec<String> = Vec::new();
        let mut i: usize = 0;
        while i < self.connections.len()
            invariant
                i <= self.connections@.len(),
                self@.len() == self.connections@.len(),
                names@.len() == i,
                forall|j: int| 0 <= j < i ==> (#[trigger] names@[j])@ == self@[j].0,
            decreases self.connections@.len() - i,
        {
            names.push(self.connections[i].0.clone());
            i += 1;
        }
        names
    }

    /// Every registered name with `true`, in registry order: a server counts
    /// as alive while it is registered.
    pub fn check_all_servers(&self) -> (status: Vec<(String, bool)>)
        ensures
            status@.len() == self@.len(),
            forall|i: int|
                0 <= i < status@.len() ==> (#[trigger] status@[i]).0@ == names_of(self@)[i]
                    && status@[i].1,
    {
        let mut status: Vec<(String, bool)> = Vec::new();
        let mut i: usize = 0;
        while i < self.connections.len()
            invariant
                i <= self.connections@.len(),
                self@.len() == self.connections@.len(),
                status@.len() == i,
                forall|j: int|
                    0 <= j < i ==> (#[trigger] status@[j]).0@ == self@[j].0 && status@[j].1,
            decreases self.connections@.len() - i,
        {
            status.push((self.connections[i].0.clone(), true));
            i += 1;
        }
        status
    }

    /// Removes the entry of `server_name` and hands its connection back, for
    /// the caller to shut down. A name that is not registered changes
    /// nothing.
    pub fn stop_server(&mut self, server_name: &str) -> (stopped: Option<MCPConnection<C>>)
        ensures
            final(self).wf(),
            final(self)@ == without(old(self)@, server_name@),
            !has_name(final(self)@, server_name@),
            match stopped {
                Some(connection) => has_name(old(self)@, server_name@) && connection == old(
                    self,
                )@[slot_of(old(self)@, server_name@)].1,
                None => !has_name(old(self)@, server_name@),
            },
    {
        proof {
            use_type_invariant(&*self);
            crate::registry::law_stopped_is_absent(self@, server_name@);
        }
        match self.position(server_name) {
            Some(i) => {
                proof {
                    lemma_slot_unique(self@, server_name@, i as int);
                }
                let mut stored: Vec<(String, MCPConnection<C>)> = Vec::new();
                core::mem::swap(&mut self.connections, &mut stored);
                let entry = stored.remove(i);
                assert(entries_of(stored@) =~= without(old(self)@, server_name@));
                self.connections = stored;
                Some(entry.1)
            },
            None => None,
        }
    }

    /// Registers `connection` under `server`, in the place of an entry of
    /// that name where there is one, which is handed back.
    pub fn register(&mut self, server: String, connection: MCPConnection<C>) -> (replaced: Option<
        MCPConnection<C>,
    >)
        ensures
            final(self).wf(),
            final(self)@ == with_entry(old(self)@, server@, connection),
            has_name(final(self)@, server@),
            match replaced {
                Some(previous) => has_name(old(self)@, server@) && previous == old(
                    self,
                )@[slot_of(old(self)@, server@)].1,
                None => !has_name(old(self)@, server@),
            },
    {
        proof {
            use_type_invariant(&*self);
            crate::registry::law_started_is_present(self@, server@, connection);
        }
        match self.position(server.as_str()) {
            Some(i) => {
                proof {
                    lemma_slot_unique(self@, server@, i as int);
                }
                let mut stored: Vec<(String, MCPConnection<C>)> = Vec::new();
                core::mem::swap(&mut self.connections, &mut stored);
                let entry = stored.remove(i);
                stored.insert(i, (server, connection));
                assert(entries_of(stored@) =~= with_entry(old(self)@, server@, connection));
                self.connections = stored;
                Some(entry.1)
            },
            None => {
                let mut stored: Vec<(String, MCPConnection<C>)> = Vec::new();
                core::mem::swap(&mut self.connections, &mut stored);
                stored.push((server, connection));
                assert(entries_of(stored@) =~= with_entry(old(self)@, server@, connection));
                self.connections = stored;
                None
            },
        }
    }

    /// What is to be done to start the `stdio` server of `config`: an error
    /// where the configuration names no command, and else the request to
    /// start it, with no arguments where none are given.
    pub fn start_stdio_server(&self, config: MCPServerConfig) -> (plan: Result<
        StartAction,
        ManagerError,
    >)
        ensures
            is_stdio_plan(config, plan),
    {
        match config.command {
            None => Err(ManagerError::CommandRequired { server: config.name }),
            Some(command) => {
                let args = match config.args {
                    Some(a) => a,
                    None => Vec::new(),
                };
                let env = match config.env {
                    Some(e) => e,
                    None => Vec::new(),
                };
                Ok(StartAction::Spawn(SpawnRequest { server: config.name, command, args, env }))
            },
        }
    }

    /// What is to be done to start the server of `config`. The registry is
    /// not touched; nothing is to be started unless the answer asks for it.
    pub fn start_server(&self, config: MCPServerConfig) -> (plan: Result<StartAction, ManagerError>)
        ensures
            is_start_plan(config, plan),
    {
        if same_text(config.transport.as_str(), "stdio") {
            self.start_stdio_server(config)
        } else if same_text(config.transport.as_str(), "http") {
            Ok(StartAction::Configured(prefixed("HTTP server configured: ", config.name.as_str())))
        } else if same_text(config.transport.as_str(), "websocket") {
            Ok(
                StartAction::Configured(
                    prefixed("WebSocket server configured: ", config.name.as_str()),
                ),
            )
        } else {
            Err(
                ManagerError::UnsupportedTransport {
                    server: config.name,
                    transport: config.transport,
                },
            )
        }
    }

    /// Completes a start with the outcome of starting the process and of the
    /// handshake. A connection is registered under `server`, in the place of
    /// an earlier one of that name; a failure leaves the registry as it was
    /// and is returned with the server's name and the cause.
    pub fn complete_start(
        &mut self,
        server: String,
        outcome: Result<MCPConnection<C>, String>,
    ) -> (done: Result<Started<C>, ManagerError>)
        ensures
            final(self).wf(),
            match outcome {
                Ok(connection) => {
                    &&& final(self)@ == with_entry(old(self)@, server@, connection)
                    &&& has_name(final(self)@, server@)
                    &&& done matches Ok(started)
                    &&& started.message@ == started_text(server@)
                    &&& match started.replaced {
                        Some(previous) => has_name(old(self)@, server@) && previous == old(
                            self,
                        )@[slot_of(old(self)@, server@)].1,
                        None => !has_name(old(self)@, server@),
                    }
                },
                Err(cause) => {
                    &&& final(self)@ == old(self)@
                    &&& done matches Err(ManagerError::StartFailed { server: s, cause: c })
                    &&& s == server
                    &&& c == cause
                },
            },
    {
        proof {
            use_type_invariant(&*self);
        }
        match outcome {
            Ok(connection) => {
                let message = prefixed("Started and connected to MCP server: ", server.as_str());
                let replaced = self.register(server, connection);
                Ok(Started { message, replaced })
            },
            Err(cause) => Err(ManagerError::StartFailed { server, cause }),
        }
    }
}

} // verus!
