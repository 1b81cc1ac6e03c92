use mcp_manager::config::{default_transport, MCPServerConfig};
use mcp_manager::error::ManagerError;
use mcp_manager::manager::{MCPServerManager, SpawnRequest, StartAction};
use mcp_manager::registry::MCPConnection;

fn config(name: &str, transport: &str, command: Option<&str>) -> MCPServerConfig {
    MCPServerConfig {
        name: name.to_string(),
        command: command.map(|c| c.to_string()),
        args: None,
        env: None,
        transport: transport.to_string(),
        url: None,
        port: None,
    }
}

fn conn(id: u32) -> MCPConnection<u32> {
    MCPConnection { client: id }
}

#[test]
fn default_transport_is_stdio() {
    assert_eq!(default_transport(), "stdio");
}

#[test]
fn new_manager_is_empty() {
    let manager: MCPServerManager<u32> = MCPServerManager::new();
    assert!(manager.get_connected_servers().is_empty());
    assert!(manager.check_all_servers().is_empty());
    assert!(!manager.is_server_alive("a"));
}

#[test]
fn stdio_without_command_is_a_configuration_error() {
    let manager: MCPServerManager<u32> = MCPServerManager::new();
    let plan = manager.start_server(config("files", "stdio", None));
    assert_eq!(plan, Err(ManagerError::CommandRequired { server: "files".to_string() }));
    let error = plan.unwrap_err();
    assert_eq!(error.server_name(), "files");
    assert_eq!(
        error.message(),
        "Command is required for stdio transport of server 'files'"
    );
    assert!(manager.get_connected_servers().is_empty());
}

#[test]
fn unknown_transport_fails_and_names_it() {
    let manager: MCPServerManager<u32> = MCPServerManager::new();
    let plan = manager.start_server(config("files", "grpc", Some("node")));
    assert_eq!(
        plan,
        Err(ManagerError::UnsupportedTransport {
            server: "files".to_string(),
            transport: "grpc".to_string(),
        })
    );
    assert_eq!(
        plan.unwrap_err().message(),
        "Unsupported transport for server 'files': grpc"
    );
}

#[test]
fn empty_transport_is_unsupported() {
    let manager: MCPServerManager<u32> = MCPServerManager::new();
    let plan = manager.start_server(config("files", "", Some("node")));
    assert_eq!(
        plan,
        Err(ManagerError::UnsupportedTransport {
            server: "files".to_string(),
            transport: String::new(),
        })
    );
}

#[test]
fn transport_is_case_sensitive() {
    let manager: MCPServerManager<u32> = MCPServerManager::new();
    let plan = manager.start_server(config("files", "STDIO", Some("node")));
    assert_eq!(
        plan,
        Err(ManagerError::UnsupportedTransport {
            server: "files".to_string(),
            transport: "STDIO".to_string(),
        })
    );
}

#[test]
fn http_is_confirmed_without_a_connection() {
    let manager: MCPServerManager<u32> = MCPServerManager::new();
    let plan = manager.start_server(config("web", "http", None));
    assert_eq!(
        plan,
        Ok(StartAction::Configured("HTTP server configured: web".to_string()))
    );
    assert!(!manager.is_server_alive("web"));
}

#[test]
fn websocket_is_confirmed_without_a_connection() {
    let manager: MCPServerManager<u32> = MCPServerManager::new();
    let plan = manager.start_server(config("live", "websocket", None));
    assert_eq!(
        plan,
        Ok(StartAction::Configured("WebSocket server configured: live".to_string()))
    );
    assert!(manager.get_connected_servers().is_empty());
}

#[test]
fn stdio_with_command_asks_for_a_spawn_with_no_arguments() {
    let manager: MCPServerManager<u32> = MCPServerManager::new();
    let plan = manager.start_server(config("files", "stdio", Some("node")));
    assert_eq!(
        plan,
        Ok(StartAction::Spawn(SpawnRequest {
            server: "files".to_string(),
            command: "node".to_string(),
            args: vec![],
            env: vec![],
        }))
    );
}

#[test]
fn stdio_spawn_carries_arguments_and_environment() {
    let manager: MCPServerManager<u32> = MCPServerManager::new();
    let mut c = config("files", "stdio", Some("node"));
    c.args = Some(vec!["server.js".to_string(), "--verbose".to_string()]);
    c.env = Some(vec![("HOME".to_string(), "/tmp".to_string())]);
    let plan = manager.start_stdio_server(c);
    assert_eq!(
        plan,
        Ok(StartAction::Spawn(SpawnRequest {
            server: "files".to_string(),
            command: "node".to_string(),
            args: vec!["server.js".to_string(), "--verbose".to_string()],
            env: vec![("HOME".to_string(), "/tmp".to_string())],
        }))
    );
}

#[test]
fn start_stdio_server_without_command_fails() {
    let manager: MCPServerManager<u32> = MCPServerManager::new();
    assert_eq!(
        manager.start_stdio_server(config("files", "stdio", None)),
        Err(ManagerError::CommandRequired { server: "files".to_string() })
    );
}

#[test]
fn completed_start_registers_the_server() {
    let mut manager: MCPServerManager<u32> = MCPServerManager::new();
    let done = manager.complete_start("files".to_string(), Ok(conn(7))).unwrap();
    assert_eq!(done.message, "Started and connected to MCP server: files");
    assert_eq!(done.replaced, None);
    assert_eq!(manager.get_connected_servers(), vec!["files".to_string()]);
    assert!(manager.is_server_alive("files"));
    assert_eq!(manager.connection("files"), Ok(&conn(7)));
}

#[test]
fn failed_start_leaves_the_registry_as_it_was() {
    let mut manager: MCPServerManager<u32> = MCPServerManager::new();
    manager.complete_start("a".to_string(), Ok(conn(1))).unwrap();
    let done = manager.complete_start("files".to_string(), Err("no such file".to_string()));
    let expected = ManagerError::StartFailed {
        server: "files".to_string(),
        cause: "no such file".to_string(),
    };
    assert_eq!(done, Err(expected));
    let error = done.unwrap_err();
    assert_eq!(error.server_name(), "files");
    assert_eq!(error.message(), "Failed to start server 'files': no such file");
    assert_eq!(manager.get_connected_servers(), vec!["a".to_string()]);
    assert!(!manager.is_server_alive("files"));
}

#[test]
fn second_start_takes_the_place_of_the_first() {
    let mut manager: MCPServerManager<u32> = MCPServerManager::new();
    manager.complete_start("a".to_string(), Ok(conn(1))).unwrap();
    manager.complete_start("b".to_string(), Ok(conn(2))).unwrap();
    let done = manager.complete_start("a".to_string(), Ok(conn(3))).unwrap();
    assert_eq!(done.replaced, Some(conn(1)));
    assert_eq!(
        manager.get_connected_servers(),
        vec!["a".to_string(), "b".to_string()]
    );
    assert_eq!(manager.connection("a"), Ok(&conn(3)));
    assert_eq!(manager.connection("b"), Ok(&conn(2)));
}

#[test]
fn register_hands_back_what_it_replaced() {
    let mut manager: MCPServerManager<u32> = MCPServerManager::new();
    assert_eq!(manager.register("a".to_string(), conn(1)), None);
    assert_eq!(manager.register("a".to_string(), conn(2)), Some(conn(1)));
    assert_eq!(manager.get_connected_servers().len(), 1);
}

#[test]
fn stop_of_unregistered_name_changes_nothing() {
    let mut manager: MCPServerManager<u32> = MCPServerManager::new();
    assert_eq!(manager.stop_server("ghost"), None);
    manager.register("a".to_string(), conn(1));
    assert_eq!(manager.stop_server("ghost"), None);
    assert_eq!(manager.get_connected_servers(), vec!["a".to_string()]);
}

#[test]
fn stopped_server_is_gone() {
    let mut manager: MCPServerManager<u32> = MCPServerManager::new();
    manager.register("a".to_string(), conn(1));
    manager.register("b".to_string(), conn(2));
    manager.register("c".to_string(), conn(3));
    assert_eq!(manager.stop_server("b"), Some(conn(2)));
    assert!(!manager.is_server_alive("b"));
    assert_eq!(
        manager.get_connected_servers(),
        vec!["a".to_string(), "c".to_string()]
    );
    assert!(manager.is_server_alive("a"));
    assert!(manager.is_server_alive("c"));
    assert_eq!(manager.stop_server("b"), None);
}

#[test]
fn check_all_servers_reports_every_registered_name_alive() {
    let mut manager: MCPServerManager<u32> = MCPServerManager::new();
    manager.register("a".to_string(), conn(1));
    manager.register("b".to_string(), conn(2));
    assert_eq!(
        manager.check_all_servers(),
        vec![("a".to_string(), true), ("b".to_string(), true)]
    );
}

#[test]
fn connection_of_unregistered_name_is_not_found() {
    let manager: MCPServerManager<u32> = MCPServerManager::new();
    let found = manager.connection("ghost");
    assert_eq!(found, Err(ManagerError::ServerNotFound("ghost".to_string())));
    assert_eq!(found.unwrap_err().message(), "Server 'ghost' not found");
}

#[test]
fn names_are_compared_exactly() {
    let mut manager: MCPServerManager<u32> = MCPServerManager::new();
    manager.register("files".to_string(), conn(1));
    assert!(!manager.is_server_alive("file"));
    assert!(!manager.is_server_alive("files "));
    assert!(!manager.is_server_alive("Files"));
    assert!(!manager.is_server_alive(""));
}
