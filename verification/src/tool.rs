//! Tools, the outcome of a tool call, and the reasons for which a tool's
//! input schema is turned down.

use crate::json::{
    clone_members, clone_optional_text, clone_optional_texts, json_members_model,
    optional_text_model, optional_texts_model, JsonFloat, JsonModel, JsonValue,
};
use crate::schema::{JSONSchema, JSONSchemaType, SchemaModel};
use crate::text::framed;
use vstd::prelude::*;
use vstd::string::StringExecFns;

verus! {

/// Hints that a tool may carry, and any further members under their names.
#[derive(Debug, PartialEq, Eq)]
pub struct MCPToolAnnotations {
    pub audience: Option<Vec<String>>,
    pub priority: Option<JsonFloat>,
    pub last_modified: Option<String>,
    pub additional: Vec<(String, JsonValue)>,
}

/// A callable operation that a server offers.
#[derive(Debug, PartialEq, Eq)]
pub struct MCPTool {
    pub name: String,
    pub title: Option<String>,
    pub description: String,
    pub input_schema: JSONSchema,
    pub output_schema: Option<JSONSchema>,
    pub annotations: Option<MCPToolAnnotations>,
}

/// The hints of a tool as contracts see them.
pub struct AnnotationsModel {
    pub audience: Option<Seq<Seq<char>>>,
    pub priority: Option<JsonFloat>,
    pub last_modified: Option<Seq<char>>,
    pub additional: Seq<(Seq<char>, JsonModel)>,
}

/// A tool as contracts see it.
pub struct ToolModel {
    pub name: Seq<char>,
    pub title: Option<Seq<char>>,
    pub description: Seq<char>,
    pub input_schema: SchemaModel,
    pub output_schema: Option<SchemaModel>,
    pub annotations: Option<AnnotationsModel>,
}

impl View for MCPToolAnnotations {
    type V = AnnotationsModel;

    open spec fn view(&self) -> AnnotationsModel {
        AnnotationsModel {
            audience: optional_texts_model(self.audience),
            priority: self.priority,
            last_modified: optional_text_model(self.last_modified),
            additional: json_members_model(self.additional@),
        }
    }
}

impl View for MCPTool {
    type V = ToolModel;

    open spec fn view(&self) -> ToolModel {
        ToolModel {
            name: self.name@,
            title: optional_text_model(self.title),
            description: self.description@,
            input_schema: self.input_schema@,
            output_schema: match self.output_schema {
                Some(s) => Some(s@),
                None => None,
            },
            annotations: match self.annotations {
                Some(a) => Some(a@),
                None => None,
            },
        }
    }
}

impl Clone for MCPToolAnnotations {
    /// A copy that holds what these hints hold.
    fn clone(&self) -> (copy: MCPToolAnnotations)
        ensures
            copy@ == self@,
    {
        MCPToolAnnotations {
            audience: clone_optional_texts(&self.audience),
            priority: self.priority,
            last_modified: clone_optional_text(&self.last_modified),
            additional: clone_members(&self.additional),
        }
    }
}

impl Clone for MCPTool {
    /// A copy that holds what this tool holds.
    fn clone(&self) -> (copy: MCPTool)
        ensures
            copy@ == self@,
    {
        let output_schema = match &self.output_schema {
            Some(s) => Some(s.clone()),
            None => None,
        };
        let annotations = match &self.annotations {
            Some(a) => Some(a.clone()),
            None => None,
        };
        MCPTool {
            name: self.name.clone(),
            title: clone_optional_text(&self.title),
            description: self.description.clone(),
            input_schema: self.input_schema.clone(),
            output_schema,
            annotations,
        }
    }
}

/// A tool as a server lists it: its name, its description if it has one, and
/// its input schema as far as it could be decoded (`None` where it could not).
#[derive(Debug, PartialEq, Eq)]
pub struct RawTool {
    pub name: String,
    pub description: Option<String>,
    pub input_schema: Option<JSONSchema>,
}

/// The text between a server's name and a tool's name in a catalogue that
/// spans several servers.
pub open spec fn name_separator() -> Seq<char> {
    "__"@
}

impl RawTool {
    /// The description, empty where the server gave none.
    pub open spec fn description_text(&self) -> Seq<char> {
        match self.description {
            Some(d) => d@,
            None => Seq::empty(),
        }
    }
}

impl MCPTool {
    /// Whether this tool is what a listing makes of `raw`: the same name, the
    /// description or an empty one, the decoded input schema or the empty
    /// object schema, and nothing else filled in.
    pub open spec fn carries(&self, raw: RawTool) -> bool {
        &&& self.name@ == raw.name@
        &&& self.carries_body(raw)
    }

    /// As `carries`, but for the name.
    pub open spec fn carries_body(&self, raw: RawTool) -> bool {
        &&& self.title is None
        &&& self.description@ == raw.description_text()
        &&& self.input_schema.recovers(raw.input_schema)
        &&& self.output_schema is None
        &&& self.annotations is None
    }

    /// Whether this tool is what a catalogue over several servers makes of
    /// `raw` as listed by `server`: as `carries`, but named by the server's
    /// name, the separator and the tool's own name.
    pub open spec fn carries_from(&self, server: Seq<char>, raw: RawTool) -> bool {
        &&& self.name@ == server + name_separator() + raw.name@
        &&& self.carries_body(raw)
    }

    /// Whether another tool differs from this one by the server's name in
    /// front of its name, and by nothing else.
    pub open spec fn prefixed_by(&self, server: Seq<char>, plain: MCPTool) -> bool {
        &&& self.name@ == server + name_separator() + plain.name@
        &&& self.title == plain.title
        &&& self.description == plain.description
        &&& self.input_schema == plain.input_schema
        &&& self.output_schema == plain.output_schema
        &&& self.annotations == plain.annotations
    }

    /// Whether the tool's input schema can serve as one.
    pub open spec fn has_valid_schema(&self) -> bool {
        self.input_schema.is_tool_input()
    }

    /// The tool that a listing makes of a raw tool.
    pub fn from_raw(raw: RawTool) -> (tool: MCPTool)
        ensures
            tool.carries(raw),
    {
        let description = match raw.description {
            Some(d) => d,
            None => String::new(),
        };
        MCPTool {
            name: raw.name,
            title: None,
            description,
            input_schema: JSONSchema::convert_input_schema(raw.input_schema),
            output_schema: None,
            annotations: None,
        }
    }

    /// The same tool under the name `<server>__<name>`.
    pub fn with_server_prefix(self, server: &str) -> (tool: MCPTool)
        ensures
            tool.prefixed_by(server@, self),
    {
        let name = framed(server, "__", self.name.as_str());
        MCPTool {
            name,
            title: self.title,
            description: self.description,
            input_schema: self.input_schema,
            output_schema: self.output_schema,
            annotations: self.annotations,
        }
    }
}

/// A tool whose input schema is not of the object kind has no valid schema,
/// whatever else the schema holds.
pub proof fn law_non_object_is_invalid(tool: MCPTool)
    requires
        !tool.input_schema.is_object(),
    ensures
        !tool.has_valid_schema(),
{
}

/// A tool whose input schema is an object that requires nothing has a valid
/// schema, whatever its properties are.
pub proof fn law_nothing_required_is_valid(tool: MCPTool)
    requires
        tool.input_schema.schema_type matches JSONSchemaType::Object { required, .. }
            && required is None,
    ensures
        tool.has_valid_schema(),
{
}

/// The outcome of one tool call: a payload on success, a message on failure.
#[derive(Debug, PartialEq, Eq)]
pub struct ToolCallResult {
    pub success: bool,
    pub result: Option<JsonValue>,
    pub error: Option<String>,
}

impl ToolCallResult {
    /// Exactly one of payload and message is present, as `success` says.
    pub open spec fn wf(&self) -> bool {
        &&& self.success <==> self.result is Some
        &&& !self.success <==> self.error is Some
    }

    /// A successful call with its payload.
    pub fn succeeded(payload: JsonValue) -> (res: ToolCallResult)
        ensures
            res.wf(),
            res.success,
            res.result == Some(payload),
    {
        ToolCallResult { success: true, result: Some(payload), error: None }
    }

    /// A failed call with the reason.
    pub fn failed(reason: String) -> (res: ToolCallResult)
        ensures
            res.wf(),
            !res.success,
            res.error == Some(reason),
    {
        ToolCallResult { success: false, result: None, error: Some(reason) }
    }

    /// The result of a call that was forwarded to a server: the payload it
    /// answered with, or the message of the cause for which it failed.
    pub fn from_outcome(outcome: Result<JsonValue, String>) -> (res: ToolCallResult)
        ensures
            res.wf(),
            match outcome {
                Ok(payload) => res.success && res.result == Some(payload),
                Err(cause) => !res.success && res.error == Some(cause),
            },
    {
        match outcome {
            Ok(payload) => ToolCallResult::succeeded(payload),
            Err(cause) => ToolCallResult::failed(cause),
        }
    }
}

/// Why a tool's input schema cannot serve as one.
#[derive(Debug, PartialEq, Eq)]
pub enum SchemaError {
    /// A required name is not among the properties.
    MissingProperty { tool: String, field: String },
    /// Names are required but the schema has no properties at all.
    NoProperties { tool: String },
    /// The schema is not of the object kind.
    NotObject { tool: String },
}

impl SchemaError {
    /// The reason in words.
    pub open spec fn text(&self) -> Seq<char> {
        match self {
            SchemaError::MissingProperty { tool, field } => "Tool '"@ + tool@
                + "' requires field '"@ + field@ + "' but it's not defined in properties"@,
            SchemaError::NoProperties { tool } => "Tool '"@ + tool@
                + "' has required fields but no properties defined"@,
            SchemaError::NotObject { tool } => "Tool '"@ + tool@
                + "' has invalid schema type, expected 'object'"@,
        }
    }

    /// The reason in words.
    pub fn message(&self) -> (out: String)
        ensures
            out@ == self.text(),
    {
        match self {
            SchemaError::MissingProperty { tool, field } => {
                let mut out = framed("Tool '", tool.as_str(), "' requires field '");
                out.append(field.as_str());
                out.append("' but it's not defined in properties");
                out
            },
            SchemaError::NoProperties { tool } => framed(
                "Tool '",
                tool.as_str(),
                "' has required fields but no properties defined",
            ),
            SchemaError::NotObject { tool } => framed(
                "Tool '",
                tool.as_str(),
                "' has invalid schema type, expected 'object'",
            ),
        }
    }
}

} // verus!
