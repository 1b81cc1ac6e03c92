//! The schema of a tool's input or output: a node of one of seven kinds,
//! each with its own constraints, and metadata that every kind may carry.

use crate::json::{
    clone_optional_items, clone_optional_json, clone_optional_text, clone_optional_texts,
    optional_items_model, optional_json_model, optional_text_model, optional_texts_model,
    texts_model, JsonFloat, JsonModel, JsonValue,
};
use vstd::prelude::*;

verus! {

/// The kind of a schema node, with the constraints of that kind.
///
/// The properties of an object are held as pairs of a name and a schema; a
/// name is a property of the object when one of the pairs carries it.
#[allow(inconsistent_fields)]
#[derive(Debug, PartialEq, Eq)]
pub enum JSONSchemaType {
    String {
        min_length: Option<u32>,
        max_length: Option<u32>,
        pattern: Option<String>,
        format: Option<String>,
    },
    Number {
        minimum: Option<JsonFloat>,
        maximum: Option<JsonFloat>,
        exclusive_minimum: Option<JsonFloat>,
        exclusive_maximum: Option<JsonFloat>,
        multiple_of: Option<JsonFloat>,
    },
    Integer {
        minimum: Option<i64>,
        maximum: Option<i64>,
        exclusive_minimum: Option<i64>,
        exclusive_maximum: Option<i64>,
        multiple_of: Option<i64>,
    },
    Boolean,
    Array {
        items: Option<Box<JSONSchema>>,
        min_items: Option<u32>,
        max_items: Option<u32>,
        unique_items: Option<bool>,
    },
    Object {
        properties: Option<Vec<(String, JSONSchema)>>,
        required: Option<Vec<String>>,
        additional_properties: Option<bool>,
        min_properties: Option<u32>,
        max_properties: Option<u32>,
    },
    Null,
}

/// A schema node: exactly one kind, and the metadata beside it.
#[derive(Debug, PartialEq, Eq)]
pub struct JSONSchema {
    pub schema_type: JSONSchemaType,
    pub title: Option<String>,
    pub description: Option<String>,
    pub default: Option<JsonValue>,
    pub examples: Option<Vec<JsonValue>>,
    pub enum_values: Option<Vec<JsonValue>>,
    pub const_value: Option<JsonValue>,
}

/// The schema of a tool's input.
pub type MCPToolInputSchema = JSONSchema;

/// The kind of a schema node as contracts see it.
#[allow(inconsistent_fields)]
pub enum SchemaKindModel {
    String {
        min_length: Option<u32>,
        max_length: Option<u32>,
        pattern: Option<Seq<char>>,
        format: Option<Seq<char>>,
    },
    Number {
        minimum: Option<JsonFloat>,
        maximum: Option<JsonFloat>,
        exclusive_minimum: Option<JsonFloat>,
        exclusive_maximum: Option<JsonFloat>,
        multiple_of: Option<JsonFloat>,
    },
    Integer {
        minimum: Option<i64>,
        maximum: Option<i64>,
        exclusive_minimum: Option<i64>,
        exclusive_maximum: Option<i64>,
        multiple_of: Option<i64>,
    },
    Boolean,
    Array {
        items: Option<Box<SchemaModel>>,
        min_items: Option<u32>,
        max_items: Option<u32>,
        unique_items: Option<bool>,
    },
    Object {
        properties: Option<Seq<(Seq<char>, SchemaModel)>>,
        required: Option<Seq<Seq<char>>>,
        additional_properties: Option<bool>,
        min_properties: Option<u32>,
        max_properties: Option<u32>,
    },
    Null,
}

/// A schema node as contracts see it: text by its characters, lists by
/// their items in order.
pub struct SchemaModel {
    pub kind: SchemaKindModel,
    pub title: Option<Seq<char>>,
    pub description: Option<Seq<char>>,
    pub default: Option<JsonModel>,
    pub examples: Option<Seq<JsonModel>>,
    pub enum_values: Option<Seq<JsonModel>>,
    pub const_value: Option<JsonModel>,
}

/// What a schema node holds.
pub open spec fn schema_model(s: JSONSchema) -> SchemaModel
    decreases s,
{
    SchemaModel {
        kind: kind_model(s.schema_type),
        title: optional_text_model(s.title),
        description: optional_text_model(s.description),
        default: optional_json_model(s.default),
        examples: optional_items_model(s.examples),
        enum_values: optional_items_model(s.enum_values),
        const_value: optional_json_model(s.const_value),
    }
}

/// What a list of properties holds.
pub open spec fn properties_model(properties: Seq<(String, JSONSchema)>) -> Seq<
    (Seq<char>, SchemaModel),
>
    decreases properties,
{
    Seq::new(
        properties.len(),
        |i: int|
            if 0 <= i < properties.len() {
                (properties[i].0@, schema_model(properties[i].1))
            } else {
                arbitrary()
            },
    )
}

/// What the kind of a schema node holds.
pub open spec fn kind_model(t: JSONSchemaType) -> SchemaKindModel
    decreases t,
{
    match t {
        JSONSchemaType::String { min_length, max_length, pattern, format } => {
            SchemaKindModel::String {
                min_length,
                max_length,
                pattern: optional_text_model(pattern),
                format: optional_text_model(format),
            }
        },
        JSONSchemaType::Number {
            minimum,
            maximum,
            exclusive_minimum,
            exclusive_maximum,
            multiple_of,
        } => SchemaKindModel::Number {
            minimum,
            maximum,
            exclusive_minimum,
            exclusive_maximum,
            multiple_of,
        },
        JSONSchemaType::Integer {
            minimum,
            maximum,
            exclusive_minimum,
            exclusive_maximum,
            multiple_of,
        } => SchemaKindModel::Integer {
            minimum,
            maximum,
            exclusive_minimum,
            exclusive_maximum,
            multiple_of,
        },
        JSONSchemaType::Boolean => SchemaKindModel::Boolean,
        JSONSchemaType::Array { items, min_items, max_items, unique_items } => {
            SchemaKindModel::Array {
                items: match items {
                    Some(inner) => Some(Box::new(schema_model(*inner))),
                    None => None,
                },
                min_items,
                max_items,
                unique_items,
            }
        },
        JSONSchemaType::Object {
            properties,
            required,
            additional_properties,
            min_properties,
            max_properties,
        } => SchemaKindModel::Object {
            properties: match properties {
                Some(p) => Some(properties_model(p@)),
                None => None,
            },
            required: optional_texts_model(required),
            additional_properties,
            min_properties,
            max_properties,
        },
        JSONSchemaType::Null => SchemaKindModel::Null,
    }
}

/// A copy of a list of properties.
pub fn clone_properties(properties: &Vec<(String, JSONSchema)>) -> (copy: Vec<
    (String, JSONSchema),
>)
    ensures
        properties_model(copy@) == properties_model(properties@),
    decreases properties,
{
    let mut copy: Vec<(String, JSONSchema)> = Vec::new();
    let mut i: usize = 0;
    while i < properties.len()
        invariant
            i <= properties@.len(),
            copy@.len() == i,
            forall|j: int|
                0 <= j < i ==> (#[trigger] copy@[j]).0@ == properties@[j].0@ && schema_model(
                    copy@[j].1,
                ) == schema_model(properties@[j].1),
        decreases properties@.len() - i,
    {
        proof {
            assert(decreases_to!(*properties => properties[i as int]));
            assert(decreases_to!(properties[i as int] => properties[i as int].1));
        }
        let schema = properties[i].1.duplicate();
        copy.push((properties[i].0.clone(), schema));
        i += 1;
    }
    assert(properties_model(copy@) =~= properties_model(properties@));
    copy
}

impl View for JSONSchema {
    type V = SchemaModel;

    open spec fn view(&self) -> SchemaModel {
        schema_model(*self)
    }
}

impl View for JSONSchemaType {
    type V = SchemaKindModel;

    open spec fn view(&self) -> SchemaKindModel {
        kind_model(*self)
    }
}

impl Clone for JSONSchema {
    /// A copy that holds what this schema holds.
    fn clone(&self) -> (copy: JSONSchema)
        ensures
            copy@ == self@,
    {
        self.duplicate()
    }
}

impl Clone for JSONSchemaType {
    /// A copy that holds what this kind holds.
    fn clone(&self) -> (copy: JSONSchemaType)
        ensures
            copy@ == self@,
    {
        self.duplicate()
    }
}

impl JSONSchemaType {
    /// A copy that holds what this kind holds.
    pub fn duplicate(&self) -> (copy: JSONSchemaType)
        ensures
            copy@ == self@,
        decreases self,
    {
        match self {
            JSONSchemaType::String { min_length, max_length, pattern, format } => {
                JSONSchemaType::String {
                    min_length: *min_length,
                    max_length: *max_length,
                    pattern: clone_optional_text(pattern),
                    format: clone_optional_text(format),
                }
            },
            JSONSchemaType::Number {
                minimum,
                maximum,
                exclusive_minimum,
                exclusive_maximum,
                multiple_of,
            } => JSONSchemaType::Number {
                minimum: *minimum,
                maximum: *maximum,
                exclusive_minimum: *exclusive_minimum,
                exclusive_maximum: *exclusive_maximum,
                multiple_of: *multiple_of,
            },
            JSONSchemaType::Integer {
                minimum,
                maximum,
                exclusive_minimum,
                exclusive_maximum,
                multiple_of,
            } => JSONSchemaType::Integer {
                minimum: *minimum,
                maximum: *maximum,
                exclusive_minimum: *exclusive_minimum,
                exclusive_maximum: *exclusive_maximum,
                multiple_of: *multiple_of,
            },
            JSONSchemaType::Boolean => JSONSchemaType::Boolean,
            JSONSchemaType::Array { items, min_items, max_items, unique_items } => {
                let inner = match items {
                    Some(schema) => Some(Box::new(schema.duplicate())),
                    None => None,
                };
                JSONSchemaType::Array {
                    items: inner,
                    min_items: *min_items,
                    max_items: *max_items,
                    unique_items: *unique_items,
                }
            },
            JSONSchemaType::Object {
                properties,
                required,
                additional_properties,
                min_properties,
                max_properties,
            } => {
                let copied = match properties {
                    Some(p) => Some(clone_properties(p)),
                    None => None,
                };
                JSONSchemaType::Object {
                    properties: copied,
                    required: clone_optional_texts(required),
                    additional_properties: *additional_properties,
                    min_properties: *min_properties,
                    max_properties: *max_properties,
                }
            },
            JSONSchemaType::Null => JSONSchemaType::Null,
        }
    }
}

/// Whether `name` is among the properties `properties`.
pub open spec fn has_property(properties: Seq<(String, JSONSchema)>, name: Seq<char>) -> bool {
    exists|i: int| 0 <= i < properties.len() && (#[trigger] properties[i]).0@ == name
}

/// Whether `k` is the first place in `required` whose name is no property.
pub open spec fn first_missing(
    required: Seq<String>,
    properties: Seq<(String, JSONSchema)>,
    k: int,
) -> bool {
    &&& 0 <= k < required.len()
    &&& !has_property(properties, required[k]@)
    &&& forall|j: int| 0 <= j < k ==> has_property(properties, (#[trigger] required[j])@)
}

/// Whether no name is carried by two of the pairs.
pub open spec fn property_names_distinct(properties: Seq<(String, JSONSchema)>) -> bool {
    forall|i: int, j: int|
        0 <= i < j < properties.len() ==> (#[trigger] properties[i]).0@ != (
        #[trigger] properties[j]).0@
}

/// Lists of properties that hold the same have the same names.
pub proof fn lemma_same_properties_same_names(
    a: Seq<(String, JSONSchema)>,
    b: Seq<(String, JSONSchema)>,
    name: Seq<char>,
)
    requires
        properties_model(a) == properties_model(b),
    ensures
        has_property(a, name) == has_property(b, name),
{
    assert(properties_model(a).len() == a.len());
    assert(properties_model(b).len() == b.len());
    if has_property(a, name) {
        let i = choose|i: int| 0 <= i < a.len() && (#[trigger] a[i]).0@ == name;
        assert(properties_model(a)[i].0 == a[i].0@);
        assert(properties_model(b)[i].0 == b[i].0@);
        assert(b[i].0@ == name);
    }
    if has_property(b, name) {
        let i = choose|i: int| 0 <= i < b.len() && (#[trigger] b[i]).0@ == name;
        assert(properties_model(a)[i].0 == a[i].0@);
        assert(properties_model(b)[i].0 == b[i].0@);
        assert(a[i].0@ == name);
    }
}

/// Schemas that hold the same are of the same kind, and either both can
/// serve as a tool's input or neither can: a copy is as valid as what it was
/// copied from.
pub proof fn law_same_schema_same_validity(a: JSONSchema, b: JSONSchema)
    requires
        a@ == b@,
    ensures
        a.is_object() == b.is_object(),
        a.is_tool_input() == b.is_tool_input(),
{
    assert(kind_model(a.schema_type) == kind_model(b.schema_type));
    match (a.schema_type, b.schema_type) {
        (
            JSONSchemaType::Object { properties: pa, required: ra, .. },
            JSONSchemaType::Object { properties: pb, required: rb, .. },
        ) => {
            assert(optional_texts_model(ra) == optional_texts_model(rb));
            match (ra, rb) {
                (Some(na), Some(nb)) => {
                    assert(texts_model(na@).len() == na@.len());
                    assert(texts_model(nb@).len() == nb@.len());
                    match (pa, pb) {
                        (Some(xa), Some(xb)) => {
                            assert forall|j: int| 0 <= j < na@.len() implies has_property(
                                xa@,
                                (#[trigger] na@[j])@,
                            ) == has_property(xb@, nb@[j]@) by {
                                assert(texts_model(na@)[j] == na@[j]@);
                                assert(texts_model(nb@)[j] == nb@[j]@);
                                lemma_same_properties_same_names(xa@, xb@, na@[j]@);
                            }
                            if a.is_tool_input() {
                                assert forall|j: int| 0 <= j < nb@.len() implies has_property(
                                    xb@,
                                    (#[trigger] nb@[j])@,
                                ) by {
                                    assert(has_property(xa@, na@[j]@));
                                }
                            }
                        },
                        _ => {},
                    }
                },
                _ => {},
            }
        },
        _ => {},
    }
}

impl JSONSchema {
    /// A copy that holds what this schema holds.
    pub fn duplicate(&self) -> (copy: JSONSchema)
        ensures
            copy@ == self@,
        decreases self,
    {
        JSONSchema {
            schema_type: self.schema_type.duplicate(),
            title: clone_optional_text(&self.title),
            description: clone_optional_text(&self.description),
            default: clone_optional_json(&self.default),
            examples: clone_optional_items(&self.examples),
            enum_values: clone_optional_items(&self.enum_values),
            const_value: clone_optional_json(&self.const_value),
        }
    }

    /// Whether the properties of this node, if it is an object with
    /// properties, have a different name each.
    pub open spec fn has_distinct_properties(&self) -> bool {
        match self.schema_type {
            JSONSchemaType::Object { properties: Some(p), .. } => property_names_distinct(p@),
            _ => true,
        }
    }

    /// Whether the node is of the object kind.
    pub open spec fn is_object(&self) -> bool {
        self.schema_type is Object
    }

    /// Whether the node carries no metadata.
    pub open spec fn is_bare(&self) -> bool {
        &&& self.title is None
        &&& self.description is None
        &&& self.default is None
        &&& self.examples is None
        &&& self.enum_values is None
        &&& self.const_value is None
    }

    /// Whether this is the empty object schema: an object with an empty list
    /// of properties, nothing required, no other constraint and no metadata.
    pub open spec fn is_empty_object(&self) -> bool {
        &&& self.is_bare()
        &&& self.schema_type matches JSONSchemaType::Object {
            properties,
            required,
            additional_properties,
            min_properties,
            max_properties,
        }
        &&& properties matches Some(p)
        &&& p@.len() == 0
        &&& required is None
        &&& additional_properties is None
        &&& min_properties is None
        &&& max_properties is None
    }

    /// Whether the node can serve as a tool's input: it is an object, and
    /// where it lists required names, it has properties and each required
    /// name is one of them.
    pub open spec fn is_tool_input(&self) -> bool {
        match self.schema_type {
            JSONSchemaType::Object { properties, required, .. } => match required {
                None => true,
                Some(names) => match properties {
                    None => false,
                    Some(p) => forall|j: int|
                        0 <= j < names@.len() ==> has_property(p@, (#[trigger] names@[j])@),
                },
            },
            _ => false,
        }
    }

    /// What a decoding attempt yields: the decoded schema, or the empty
    /// object schema where the decoding failed.
    pub open spec fn recovers(&self, decoded: Option<JSONSchema>) -> bool {
        match decoded {
            Some(schema) => *self == schema,
            None => self.is_empty_object(),
        }
    }

    /// The decoded schema, or the empty object schema where strict decoding
    /// failed: a malformed schema is never an error.
    pub fn convert_input_schema(decoded: Option<JSONSchema>) -> (schema: JSONSchema)
        ensures
            schema.recovers(decoded),
            decoded is None ==> schema.is_tool_input(),
            decoded matches Some(d) && d.has_distinct_properties()
                ==> schema.has_distinct_properties(),
            decoded is None ==> schema.has_distinct_properties(),
    {
        match decoded {
            Some(schema) => schema,
            None => JSONSchema::default(),
        }
    }
}

impl Default for JSONSchema {
    /// The empty object schema.
    fn default() -> (schema: JSONSchema)
        ensures
            schema.is_empty_object(),
            schema.is_tool_input(),
            schema.has_distinct_properties(),
    {
        JSONSchema {
            schema_type: JSONSchemaType::Object {
                properties: Some(Vec::new()),
                required: None,
                additional_properties: None,
                min_properties: None,
                max_properties: None,
            },
            title: None,
            description: None,
            default: None,
            examples: None,
            enum_values: None,
            const_value: None,
        }
    }
}

/// Whether `name` is among the properties `properties`.
pub fn contains_property(properties: &Vec<(String, JSONSchema)>, name: &str) -> (found: bool)
    ensures
        found == has_property(properties@, name@),
{
    let mut i: usize = 0;
    while i < properties.len()
        invariant
            i <= properties.len(),
            forall|j: int| 0 <= j < i ==> (#[trigger] properties@[j]).0@ != name@,
        decreases properties.len() - i,
    {
        if crate::text::same_text(properties[i].0.as_str(), name) {
            return true;
        }
        i += 1;
    }
    false
}

} // verus!
