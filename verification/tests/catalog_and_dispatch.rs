use mcp_manager::catalog::prefix_all;
use mcp_manager::dispatch::{CallRequest, CallStep};
use mcp_manager::error::{not_found_message, ManagerError};
use mcp_manager::json::{JsonNumber, JsonValue};
use mcp_manager::manager::MCPServerManager;
use mcp_manager::registry::MCPConnection;
use mcp_manager::schema::{JSONSchema, JSONSchemaType};
use mcp_manager::text::{framed, prefixed, same_text};
use mcp_manager::tool::{MCPTool, RawTool, SchemaError, ToolCallResult};

fn manager_with(names: &[&str]) -> MCPServerManager<u32> {
    let mut manager: MCPServerManager<u32> = MCPServerManager::new();
    let mut id: u32 = 1;
    for name in names {
        manager.register(name.to_string(), MCPConnection { client: id });
        id += 1;
    }
    manager
}

fn string_schema() -> JSONSchema {
    JSONSchema {
        schema_type: JSONSchemaType::String {
            min_length: None,
            max_length: None,
            pattern: None,
            format: None,
        },
        title: None,
        description: None,
        default: None,
        examples: None,
        enum_values: None,
        const_value: None,
    }
}

fn raw(name: &str, description: Option<&str>, input_schema: Option<JSONSchema>) -> RawTool {
    RawTool {
        name: name.to_string(),
        description: description.map(|d| d.to_string()),
        input_schema,
    }
}

fn plain(name: &str, description: &str, input_schema: JSONSchema) -> MCPTool {
    MCPTool {
        name: name.to_string(),
        title: None,
        description: description.to_string(),
        input_schema,
        output_schema: None,
        annotations: None,
    }
}

fn names(tools: &[MCPTool]) -> Vec<String> {
    tools.iter().map(|t| t.name.clone()).collect()
}

#[test]
fn list_tools_of_unregistered_server_fails() {
    let manager = manager_with(&["a"]);
    let listing = manager.list_tools("ghost", Ok(vec![raw("run", None, None)]));
    assert_eq!(listing, Err(ManagerError::ServerNotFound("ghost".to_string())));
    assert_eq!(listing.unwrap_err().message(), "Server 'ghost' not found");
}

#[test]
fn list_tools_passes_a_failed_answer_on() {
    let manager = manager_with(&["a"]);
    let listing = manager.list_tools("a", Err("connection closed".to_string()));
    let expected = ManagerError::ListFailed {
        server: "a".to_string(),
        cause: "connection closed".to_string(),
    };
    assert_eq!(listing, Err(expected));
    let error = listing.unwrap_err();
    assert_eq!(error.server_name(), "a");
    assert_eq!(error.message(), "Failed to list tools of server 'a': connection closed");
}

#[test]
fn failed_listing_names_its_own_server() {
    let manager = manager_with(&["files", "search"]);
    let first = manager.list_tools("files", Err("gone".to_string())).unwrap_err();
    let second = manager.list_tools("search", Err("gone".to_string())).unwrap_err();
    assert_eq!(first.message(), "Failed to list tools of server 'files': gone");
    assert_eq!(second.message(), "Failed to list tools of server 'search': gone");
    assert_ne!(first, second);
}

#[test]
fn failed_listing_of_unregistered_server_is_not_found() {
    let manager = manager_with(&["a"]);
    assert_eq!(
        manager.list_tools("ghost", Err("gone".to_string())),
        Err(ManagerError::ServerNotFound("ghost".to_string()))
    );
}

#[test]
fn list_tools_keeps_name_description_and_schema_in_order() {
    let manager = manager_with(&["a"]);
    let listing = manager
        .list_tools(
            "a",
            Ok(vec![
                raw("run", Some("Runs it"), Some(string_schema())),
                raw("stop", None, None),
                raw("third", Some(""), Some(JSONSchema::default())),
            ]),
        )
        .unwrap();
    assert_eq!(
        listing,
        vec![
            plain("run", "Runs it", string_schema()),
            plain("stop", "", JSONSchema::default()),
            plain("third", "", JSONSchema::default()),
        ]
    );
}

#[test]
fn list_tools_of_an_empty_answer_is_empty() {
    let manager = manager_with(&["a"]);
    assert_eq!(manager.list_tools("a", Ok(vec![])), Ok(vec![]));
}

#[test]
fn from_raw_fills_nothing_else_in() {
    let tool = MCPTool::from_raw(raw("run", Some("d"), None));
    assert_eq!(tool.title, None);
    assert_eq!(tool.output_schema, None);
    assert_eq!(tool.annotations, None);
    assert_eq!(tool, plain("run", "d", JSONSchema::default()));
}

#[test]
fn server_prefix_is_put_before_the_name() {
    let tool = plain("run", "d", string_schema()).with_server_prefix("files");
    assert_eq!(tool, plain("files__run", "d", string_schema()));
}

#[test]
fn prefix_all_keeps_the_order() {
    let out = prefix_all(
        "s",
        vec![
            plain("one", "", string_schema()),
            plain("two", "", string_schema()),
            plain("three", "", string_schema()),
        ],
    );
    assert_eq!(names(&out), vec!["s__one", "s__two", "s__three"]);
}

#[test]
fn catalogue_prefixes_tools_of_two_servers() {
    let manager = manager_with(&["a", "b"]);
    let tools = manager.list_all_tools(vec![
        ("a".to_string(), Ok(vec![raw("run", None, None)])),
        ("b".to_string(), Ok(vec![raw("run", None, None)])),
    ]);
    assert_eq!(names(&tools), vec!["a__run", "b__run"]);
    assert!(tools.iter().all(|t| t.name != "run"));
}

#[test]
fn catalogue_skips_the_unreachable_server() {
    let manager = manager_with(&["a", "b"]);
    let tools = manager.list_all_tools(vec![
        ("a".to_string(), Err("timed out".to_string())),
        (
            "b".to_string(),
            Ok(vec![raw("run", Some("r"), None), raw("walk", None, Some(string_schema()))]),
        ),
    ]);
    assert_eq!(
        tools,
        vec![
            plain("b__run", "r", JSONSchema::default()),
            plain("b__walk", "", string_schema()),
        ]
    );
}

#[test]
fn catalogue_skips_answers_of_unregistered_servers() {
    let manager = manager_with(&["a"]);
    let tools = manager.list_all_tools(vec![
        ("ghost".to_string(), Ok(vec![raw("run", None, None)])),
        ("a".to_string(), Ok(vec![raw("run", None, None)])),
    ]);
    assert_eq!(names(&tools), vec!["a__run"]);
}

#[test]
fn catalogue_follows_the_order_of_answers_then_of_listing() {
    let manager = manager_with(&["a", "b", "c"]);
    let tools = manager.list_all_tools(vec![
        ("c".to_string(), Ok(vec![raw("z", None, None), raw("y", None, None)])),
        ("a".to_string(), Ok(vec![])),
        ("b".to_string(), Ok(vec![raw("x", None, None)])),
    ]);
    assert_eq!(names(&tools), vec!["c__z", "c__y", "b__x"]);
}

#[test]
fn catalogue_of_no_answers_is_empty() {
    let manager = manager_with(&["a"]);
    assert!(manager.list_all_tools(vec![]).is_empty());
}

#[test]
fn validated_tools_leave_out_the_invalid_ones() {
    let manager = manager_with(&["a"]);
    let needs_x = JSONSchema {
        schema_type: JSONSchemaType::Object {
            properties: Some(vec![]),
            required: Some(vec!["x".to_string()]),
            additional_properties: None,
            min_properties: None,
            max_properties: None,
        },
        ..JSONSchema::default()
    };
    let valid = manager
        .get_validated_tools(
            "a",
            Ok(vec![
                raw("good", None, None),
                raw("text", None, Some(string_schema())),
                raw("needy", None, Some(needs_x)),
                raw("last", Some("l"), Some(JSONSchema::default())),
            ]),
        )
        .unwrap();
    assert_eq!(names(&valid.accepted), vec!["good", "last"]);
    assert_eq!(valid.rejected.len(), 2);
    assert_eq!(valid.rejected[0].0.name, "text");
    assert_eq!(
        valid.rejected[0].1,
        SchemaError::NotObject { tool: "text".to_string() }
    );
    assert_eq!(valid.rejected[1].0.name, "needy");
    assert_eq!(
        valid.rejected[1].1,
        SchemaError::MissingProperty { tool: "needy".to_string(), field: "x".to_string() }
    );
}

#[test]
fn validated_tools_of_an_empty_listing() {
    let manager = manager_with(&["a"]);
    let report = manager.get_validated_tools("a", Ok(vec![])).unwrap();
    assert!(report.accepted.is_empty());
    assert!(report.rejected.is_empty());
}

#[test]
fn validated_tools_fail_as_listing_does() {
    let manager = manager_with(&["a"]);
    assert_eq!(
        manager.get_validated_tools("ghost", Ok(vec![])),
        Err(ManagerError::ServerNotFound("ghost".to_string()))
    );
    assert_eq!(
        manager.get_validated_tools("a", Err("boom".to_string())),
        Err(ManagerError::ListFailed { server: "a".to_string(), cause: "boom".to_string() })
    );
}

#[test]
fn sorting_by_validity_keeps_order() {
    let report = MCPServerManager::<u32>::sort_by_validity(vec![
        plain("a", "", JSONSchema::default()),
        plain("b", "", string_schema()),
        plain("c", "", JSONSchema::default()),
        plain("d", "", string_schema()),
    ]);
    assert_eq!(names(&report.accepted), vec!["a", "c"]);
    assert_eq!(
        report.rejected,
        vec![
            (plain("b", "", string_schema()), SchemaError::NotObject { tool: "b".to_string() }),
            (plain("d", "", string_schema()), SchemaError::NotObject { tool: "d".to_string() }),
        ]
    );
}

#[test]
fn call_on_unregistered_server_fails_with_not_found() {
    let manager = manager_with(&["a"]);
    let step = manager.call_tool("ghost", "run", JsonValue::Object(vec![]));
    assert_eq!(
        step,
        CallStep::Done(ToolCallResult {
            success: false,
            result: None,
            error: Some("Server 'ghost' not found".to_string()),
        })
    );
}

#[test]
fn call_with_object_arguments_forwards_the_members() {
    let manager = manager_with(&["a", "b"]);
    let members = vec![
        ("path".to_string(), JsonValue::String("/tmp".to_string())),
        ("depth".to_string(), JsonValue::Number(JsonNumber::PosInt(2))),
    ];
    let step = manager.call_tool("b", "walk", JsonValue::Object(members));
    let expected = vec![
        ("path".to_string(), JsonValue::String("/tmp".to_string())),
        ("depth".to_string(), JsonValue::Number(JsonNumber::PosInt(2))),
    ];
    assert_eq!(
        step,
        CallStep::Forward {
            connection: &MCPConnection { client: 2 },
            request: CallRequest { name: "walk".to_string(), arguments: expected },
        }
    );
}

#[test]
fn call_with_a_bare_number_counts_as_no_arguments() {
    let manager = manager_with(&["a"]);
    let step = manager.call_tool("a", "run", JsonValue::Number(JsonNumber::NegInt(-4)));
    assert_eq!(
        step,
        CallStep::Forward {
            connection: &MCPConnection { client: 1 },
            request: CallRequest { name: "run".to_string(), arguments: vec![] },
        }
    );
}

#[test]
fn call_with_an_array_counts_as_no_arguments() {
    let manager = manager_with(&["a"]);
    let array = JsonValue::Array(vec![JsonValue::Object(vec![(
        "k".to_string(),
        JsonValue::Bool(true),
    )])]);
    match manager.call_tool("a", "run", array) {
        CallStep::Forward { request, .. } => assert!(request.arguments.is_empty()),
        CallStep::Done(_) => panic!("the server is registered"),
    }
}

#[test]
fn into_members_of_each_kind() {
    assert!(JsonValue::Null.into_members().is_empty());
    assert!(JsonValue::Bool(true).into_members().is_empty());
    assert!(JsonValue::String("{}".to_string()).into_members().is_empty());
    assert_eq!(
        JsonValue::Object(vec![("a".to_string(), JsonValue::Null)]).into_members(),
        vec![("a".to_string(), JsonValue::Null)]
    );
}

#[test]
fn outcome_of_a_successful_call() {
    let res = ToolCallResult::from_outcome(Ok(JsonValue::Bool(true)));
    assert_eq!(
        res,
        ToolCallResult { success: true, result: Some(JsonValue::Bool(true)), error: None }
    );
    assert_eq!(res, ToolCallResult::succeeded(JsonValue::Bool(true)));
}

#[test]
fn outcome_of_a_failed_call() {
    let res = ToolCallResult::from_outcome(Err("tool crashed".to_string()));
    assert_eq!(
        res,
        ToolCallResult { success: false, result: None, error: Some("tool crashed".to_string()) }
    );
    assert_eq!(res, ToolCallResult::failed("tool crashed".to_string()));
}

#[test]
fn not_found_message_names_the_server() {
    assert_eq!(not_found_message("files"), "Server 'files' not found");
    assert_eq!(not_found_message(""), "Server '' not found");
}

#[test]
fn text_helpers() {
    assert!(same_text("abc", "abc"));
    assert!(!same_text("abc", "abd"));
    assert!(!same_text("abc", "ab"));
    assert!(same_text("", ""));
    assert_eq!(prefixed("a: ", "b"), "a: b");
    assert_eq!(framed("<", "x", ">"), "<x>");
}
