//! How one server is reached.

use vstd::prelude::*;

verus! {

/// The identity of one server and the way to reach it.
///
/// `transport` is one of `stdio`, `http` and `websocket`. A `stdio` server is
/// a child process started from `command` with `args` and with `env` laid
/// over the inherited environment; the network transports use `url` and
/// `port`.
#[derive(Clone, Debug)]
pub struct MCPServerConfig {
    pub name: String,
    pub command: Option<String>,
    pub args: Option<Vec<String>>,
    pub env: Option<Vec<(String, String)>>,
    pub transport: String,
    pub url: Option<String>,
    pub port: Option<u16>,
}

/// The transport of a configuration that names none.
pub fn default_transport() -> (transport: String)
    ensures
        transport@ == "stdio"@,
{
    "stdio".to_owned()
}

} // verus!
