//! Routing of one tool call to the connection of its server.

use crate::error::not_found_text;
use crate::error::not_found_message;
use crate::json::JsonValue;
use crate::manager::MCPServerManager;
use crate::registry::{has_name, slot_of, MCPConnection};
use crate::tool::ToolCallResult;
use vstd::prelude::*;

verus! {

/// A tool call as it is sent to a server: the tool's name and the members of
/// the argument object.
#[derive(Debug, PartialEq, Eq)]
pub struct CallRequest {
    pub name: String,
    pub arguments: Vec<(String, JsonValue)>,
}

/// What a tool call asks of the caller.
#[derive(Debug, PartialEq, Eq)]
pub enum CallStep<'a, C> {
    /// Send the request over the connection, and make the result of the call
    /// from the answer with `ToolCallResult::from_outcome`. The connection
    /// is lent out of the registry: a caller that shares the registry takes
    /// from it what sending needs and lets go of the registry before it
    /// sends.
    Forward { connection: &'a MCPConnection<C>, request: CallRequest },
    /// Nothing: the call is over, with this result.
    Done(ToolCallResult),
}

impl<C> MCPServerManager<C> {
    /// Routes a call of `tool_name` on `server_name`.
    ///
    /// Where the server is registered, the call is to be forwarded over its
    /// connection, with the members of `arguments` if that is an object and
    /// with no arguments if it is anything else. Where it is not, the call
    /// has failed with the message that the server was not found.
    pub fn call_tool<'a>(&'a self, server_name: &str, tool_name: &str, arguments: JsonValue) -> (step:
        CallStep<'a, C>)
        ensures
            match step {
                CallStep::Forward { connection, request } => {
                    &&& has_name(self@, server_name@)
                    &&& *connection == self@[slot_of(self@, server_name@)].1
                    &&& request.name@ == tool_name@
                    &&& request.arguments@ == arguments.members()
                },
                CallStep::Done(result) => {
                    &&& !has_name(self@, server_name@)
                    &&& result.wf()
                    &&& !result.success
                    &&& result.error matches Some(text)
                    &&& text@ == not_found_text(server_name@)
                },
            },
    {
        match self.connection(server_name) {
            Ok(connection) => CallStep::Forward {
                connection,
                request: CallRequest {
                    name: tool_name.to_owned(),
                    arguments: arguments.into_members(),
                },
            },
            Err(_) => CallStep::Done(ToolCallResult::failed(not_found_message(server_name))),
        }
    }
}

} // verus!
