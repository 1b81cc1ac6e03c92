//! The errors of the manager.

use crate::text::framed;
use vstd::prelude::*;
use vstd::string::StringExecFns;

verus! {

/// Why an operation of the manager failed.
#[derive(Debug, PartialEq, Eq)]
pub enum ManagerError {
    /// The `stdio` configuration of the server names no command.
    CommandRequired { server: String },
    /// The configuration of the server names a transport that is none of
    /// the known ones.
    UnsupportedTransport { server: String, transport: String },
    /// The server's process could not be started, or the handshake failed.
    StartFailed { server: String, cause: String },
    /// No connection is registered under the name.
    ServerNotFound(String),
    /// The server did not answer the request for its tools.
    ListFailed { server: String, cause: String },
}

/// The message for a server name under which nothing is registered.
pub open spec fn not_found_text(server: Seq<char>) -> Seq<char> {
    "Server '"@ + server + "' not found"@
}

/// The message for a server name under which nothing is registered.
pub fn not_found_message(server: &str) -> (out: String)
    ensures
        out@ == not_found_text(server@),
{
    framed("Server '", server, "' not found")
}

/// Whether `part` stands somewhere in `text`, in one piece.
pub open spec fn contains_text(text: Seq<char>, part: Seq<char>) -> bool {
    exists|i: int|
        0 <= i && i + part.len() <= text.len() && #[trigger] text.subrange(i, i + part.len())
            == part
}

/// A part stands in a text that is made of something before it, the part
/// and something after it.
pub proof fn lemma_middle_is_contained(before: Seq<char>, part: Seq<char>, after: Seq<char>)
    ensures
        contains_text(before + part + after, part),
{
    let text = before + part + after;
    let i = before.len() as int;
    assert(text.subrange(i, i + part.len()) =~= part);
}

/// Every error names the server it is about: the server's name stands in
/// the error's text.
pub proof fn law_error_names_the_server(e: ManagerError)
    ensures
        contains_text(e.text(), e.server()),
{
    match e {
        ManagerError::CommandRequired { server } => {
            lemma_middle_is_contained(
                "Command is required for stdio transport of server '"@,
                server@,
                "'"@,
            );
        },
        ManagerError::UnsupportedTransport { server, transport } => {
            lemma_middle_is_contained(
                "Unsupported transport for server '"@,
                server@,
                "': "@ + transport@,
            );
            assert("Unsupported transport for server '"@ + server@ + ("': "@ + transport@)
                =~= e.text());
        },
        ManagerError::StartFailed { server, cause } => {
            lemma_middle_is_contained("Failed to start server '"@, server@, "': "@ + cause@);
            assert("Failed to start server '"@ + server@ + ("': "@ + cause@) =~= e.text());
        },
        ManagerError::ServerNotFound(server) => {
            lemma_middle_is_contained("Server '"@, server@, "' not found"@);
        },
        ManagerError::ListFailed { server, cause } => {
            lemma_middle_is_contained(
                "Failed to list tools of server '"@,
                server@,
                "': "@ + cause@,
            );
            assert("Failed to list tools of server '"@ + server@ + ("': "@ + cause@)
                =~= e.text());
        },
    }
}

/// The text of an error that came with a cause holds the cause, and that of
/// an unsupported transport holds the transport.
pub proof fn law_error_names_the_cause(e: ManagerError)
    ensures
        e matches ManagerError::StartFailed { cause, .. } ==> contains_text(e.text(), cause@),
        e matches ManagerError::ListFailed { cause, .. } ==> contains_text(e.text(), cause@),
        e matches ManagerError::UnsupportedTransport { transport, .. } ==> contains_text(
            e.text(),
            transport@,
        ),
{
    let empty = Seq::<char>::empty();
    match e {
        ManagerError::StartFailed { server, cause } => {
            lemma_middle_is_contained("Failed to start server '"@ + server@ + "': "@, cause@, empty);
            assert("Failed to start server '"@ + server@ + "': "@ + cause@ + empty =~= e.text());
        },
        ManagerError::ListFailed { server, cause } => {
            lemma_middle_is_contained(
                "Failed to list tools of server '"@ + server@ + "': "@,
                cause@,
                empty,
            );
            assert("Failed to list tools of server '"@ + server@ + "': "@ + cause@ + empty
                =~= e.text());
        },
        ManagerError::UnsupportedTransport { server, transport } => {
            lemma_middle_is_contained(
                "Unsupported transport for server '"@ + server@ + "': "@,
                transport@,
                empty,
            );
            assert("Unsupported transport for server '"@ + server@ + "': "@ + transport@ + empty
                =~= e.text());
        },
        _ => {},
    }
}

impl ManagerError {
    /// The name of the server that the error is about.
    pub open spec fn server(&self) -> Seq<char> {
        match self {
            ManagerError::CommandRequired { server } => server@,
            ManagerError::UnsupportedTransport { server, .. } => server@,
            ManagerError::StartFailed { server, .. } => server@,
            ManagerError::ServerNotFound(server) => server@,
            ManagerError::ListFailed { server, .. } => server@,
        }
    }

    /// The error in words.
    pub open spec fn text(&self) -> Seq<char> {
        match self {
            ManagerError::CommandRequired { server } =>
                "Command is required for stdio transport of server '"@ + server@ + "'"@,
            ManagerError::UnsupportedTransport { server, transport } =>
                "Unsupported transport for server '"@ + server@ + "': "@ + transport@,
            ManagerError::StartFailed { server, cause } => "Failed to start server '"@ + server@
                + "': "@ + cause@,
            ManagerError::ServerNotFound(server) => not_found_text(server@),
            ManagerError::ListFailed { server, cause } => "Failed to list tools of server '"@
                + server@ + "': "@ + cause@,
        }
    }

    /// The name of the server that the error is about.
    pub fn server_name(&self) -> (name: &String)
        ensures
            name@ == self.server(),
    {
        match self {
            ManagerError::CommandRequired { server } => server,
            ManagerError::UnsupportedTransport { server, .. } => server,
            ManagerError::StartFailed { server, .. } => server,
            ManagerError::ServerNotFound(server) => server,
            ManagerError::ListFailed { server, .. } => server,
        }
    }

    /// The error in words.
    pub fn message(&self) -> (out: String)
        ensures
            out@ == self.text(),
    {
        match self {
            ManagerError::CommandRequired { server } => framed(
                "Command is required for stdio transport of server '",
                server.as_str(),
                "'",
            ),
            ManagerError::UnsupportedTransport { server, transport } => {
                let mut out = framed("Unsupported transport for server '", server.as_str(), "': ");
                out.append(transport.as_str());
                out
            },
            ManagerError::StartFailed { server, cause } => {
                let mut out = framed("Failed to start server '", server.as_str(), "': ");
                out.append(cause.as_str());
                out
            },
            ManagerError::ServerNotFound(server) => not_found_message(server.as_str()),
            ManagerError::ListFailed { server, cause } => {
                let mut out = framed("Failed to list tools of server '", server.as_str(), "': ");
                out.append(cause.as_str());
                out
            },
        }
    }
}

} // verus!
