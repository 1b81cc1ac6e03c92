//! A JSON value held as plain data.

use vstd::prelude::*;

verus! {

/// An IEEE 754 binary64 number, held by its bit pattern.
#[derive(Clone, Copy, Debug, PartialEq, Eq, Structural)]
pub struct JsonFloat {
    pub bits: u64,
}

/// A JSON number: a non-negative integer, a negative integer, or a float.
#[derive(Clone, Copy, Debug, PartialEq, Eq, Structural)]
pub enum JsonNumber {
    PosInt(u64),
    NegInt(i64),
    Float(JsonFloat),
}

/// A JSON value. The members of an object keep the order they were given in.
#[derive(Debug, PartialEq, Eq)]
pub enum JsonValue {
    Null,
    Bool(bool),
    Number(JsonNumber),
    String(String),
    Array(Vec<JsonValue>),
    Object(Vec<(String, JsonValue)>),
}

/// A JSON value as contracts see it: text by its characters, arrays and
/// objects by their items in order.
pub enum JsonModel {
    Null,
    Bool(bool),
    Number(JsonNumber),
    Text(Seq<char>),
    Array(Seq<JsonModel>),
    Object(Seq<(Seq<char>, JsonModel)>),
}

/// What a JSON value holds.
pub open spec fn json_model(v: JsonValue) -> JsonModel
    decreases v,
{
    match v {
        JsonValue::Null => JsonModel::Null,
        JsonValue::Bool(b) => JsonModel::Bool(b),
        JsonValue::Number(n) => JsonModel::Number(n),
        JsonValue::String(s) => JsonModel::Text(s@),
        JsonValue::Array(items) => JsonModel::Array(
            Seq::new(
                items@.len(),
                |i: int|
                    if 0 <= i < items@.len() {
                        json_model(items@[i])
                    } else {
                        JsonModel::Null
                    },
            ),
        ),
        JsonValue::Object(members) => JsonModel::Object(json_members_model(members@)),
    }
}

/// What a list of named JSON values holds.
pub open spec fn json_members_model(members: Seq<(String, JsonValue)>) -> Seq<
    (Seq<char>, JsonModel),
>
    decreases members,
{
    Seq::new(
        members.len(),
        |i: int|
            if 0 <= i < members.len() {
                (members[i].0@, json_model(members[i].1))
            } else {
                (Seq::empty(), JsonModel::Null)
            },
    )
}

/// What a list of JSON values holds.
pub open spec fn json_items_model(items: Seq<JsonValue>) -> Seq<JsonModel> {
    Seq::new(items.len(), |i: int| json_model(items[i]))
}

/// What a list of strings holds.
pub open spec fn texts_model(texts: Seq<String>) -> Seq<Seq<char>> {
    Seq::new(texts.len(), |i: int| texts[i]@)
}

/// What an optional string holds.
pub open spec fn optional_text_model(text: Option<String>) -> Option<Seq<char>> {
    match text {
        Some(t) => Some(t@),
        None => None,
    }
}

/// What an optional list of strings holds.
pub open spec fn optional_texts_model(texts: Option<Vec<String>>) -> Option<Seq<Seq<char>>> {
    match texts {
        Some(t) => Some(texts_model(t@)),
        None => None,
    }
}

/// What an optional JSON value holds.
pub open spec fn optional_json_model(value: Option<JsonValue>) -> Option<JsonModel> {
    match value {
        Some(v) => Some(json_model(v)),
        None => None,
    }
}

/// What an optional list of JSON values holds.
pub open spec fn optional_items_model(items: Option<Vec<JsonValue>>) -> Option<Seq<JsonModel>> {
    match items {
        Some(v) => Some(json_items_model(v@)),
        None => None,
    }
}

/// A copy of an optional string.
pub fn clone_optional_text(text: &Option<String>) -> (copy: Option<String>)
    ensures
        optional_text_model(copy) == optional_text_model(*text),
{
    match text {
        Some(t) => Some(t.clone()),
        None => None,
    }
}

/// A copy of an optional list of strings.
pub fn clone_optional_texts(texts: &Option<Vec<String>>) -> (copy: Option<Vec<String>>)
    ensures
        optional_texts_model(copy) == optional_texts_model(*texts),
{
    match texts {
        Some(t) => Some(clone_texts(t)),
        None => None,
    }
}

/// A copy of an optional JSON value.
pub fn clone_optional_json(value: &Option<JsonValue>) -> (copy: Option<JsonValue>)
    ensures
        optional_json_model(copy) == optional_json_model(*value),
{
    match value {
        Some(v) => Some(v.clone()),
        None => None,
    }
}

/// A copy of an optional list of JSON values.
pub fn clone_optional_items(items: &Option<Vec<JsonValue>>) -> (copy: Option<Vec<JsonValue>>)
    ensures
        optional_items_model(copy) == optional_items_model(*items),
{
    match items {
        Some(v) => Some(clone_items(v)),
        None => None,
    }
}

/// A copy of a list of strings.
pub fn clone_texts(texts: &Vec<String>) -> (copy: Vec<String>)
    ensures
        texts_model(copy@) == texts_model(texts@),
{
    let mut copy: Vec<String> = Vec::new();
    let mut i: usize = 0;
    while i < texts.len()
        invariant
            i <= texts@.len(),
            copy@.len() == i,
            forall|j: int| 0 <= j < i ==> (#[trigger] copy@[j])@ == texts@[j]@,
        decreases texts@.len() - i,
    {
        copy.push(texts[i].clone());
        i += 1;
    }
    assert(texts_model(copy@) =~= texts_model(texts@));
    copy
}

/// A copy of a list of JSON values.
pub fn clone_items(items: &Vec<JsonValue>) -> (copy: Vec<JsonValue>)
    ensures
        json_items_model(copy@) == json_items_model(items@),
{
    let mut copy: Vec<JsonValue> = Vec::new();
    let mut i: usize = 0;
    while i < items.len()
        invariant
            i <= items@.len(),
            copy@.len() == i,
            forall|j: int| 0 <= j < i ==> json_model(#[trigger] copy@[j]) == json_model(items@[j]),
        decreases items@.len() - i,
    {
        copy.push(items[i].clone());
        i += 1;
    }
    assert(json_items_model(copy@) =~= json_items_model(items@));
    copy
}

/// A copy of a list of named JSON values.
pub fn clone_members(members: &Vec<(String, JsonValue)>) -> (copy: Vec<(String, JsonValue)>)
    ensures
        json_members_model(copy@) == json_members_model(members@),
{
    let mut copy: Vec<(String, JsonValue)> = Vec::new();
    let mut i: usize = 0;
    while i < members.len()
        invariant
            i <= members@.len(),
            copy@.len() == i,
            forall|j: int|
                0 <= j < i ==> (#[trigger] copy@[j]).0@ == members@[j].0@ && json_model(
                    copy@[j].1,
                ) == json_model(members@[j].1),
        decreases members@.len() - i,
    {
        copy.push((members[i].0.clone(), members[i].1.clone()));
        i += 1;
    }
    assert(json_members_model(copy@) =~= json_members_model(members@));
    copy
}

impl View for JsonValue {
    type V = JsonModel;

    open spec fn view(&self) -> JsonModel {
        json_model(*self)
    }
}

impl Clone for JsonValue {
    /// A copy that holds what this value holds.
    fn clone(&self) -> (copy: JsonValue)
        ensures
            copy@ == self@,
    {
        self.duplicate()
    }
}

impl JsonValue {
    /// A copy that holds what this value holds.
    pub fn duplicate(&self) -> (copy: JsonValue)
        ensures
            copy@ == self@,
        decreases self,
    {
        match self {
            JsonValue::Null => JsonValue::Null,
            JsonValue::Bool(b) => JsonValue::Bool(*b),
            JsonValue::Number(n) => JsonValue::Number(*n),
            JsonValue::String(s) => JsonValue::String(s.clone()),
            JsonValue::Array(items) => {
                let mut out: Vec<JsonValue> = Vec::new();
                let mut i: usize = 0;
                while i < items.len()
                    invariant
                        i <= items@.len(),
                        *self == JsonValue::Array(*items),
                        out@.len() == i,
                        forall|j: int|
                            0 <= j < i ==> json_model(#[trigger] out@[j]) == json_model(items@[j]),
                    decreases items@.len() - i,
                {
                    proof {
                        assert(self->Array_0 == *items);
                        assert(decreases_to!(*self => self->Array_0));
                        assert(decreases_to!(*items => items[i as int]));
                    }
                    let item = items[i].duplicate();
                    out.push(item);
                    i += 1;
                }
                let copy = JsonValue::Array(out);
                assert(json_model(copy)->Array_0 =~= json_model(*self)->Array_0);
                copy
            },
            JsonValue::Object(members) => {
                let mut out: Vec<(String, JsonValue)> = Vec::new();
                let mut i: usize = 0;
                while i < members.len()
                    invariant
                        i <= members@.len(),
                        *self == JsonValue::Object(*members),
                        out@.len() == i,
                        forall|j: int|
                            0 <= j < i ==> (#[trigger] out@[j]).0@ == members@[j].0@
                                && json_model(out@[j].1) == json_model(members@[j].1),
                    decreases members@.len() - i,
                {
                    proof {
                        assert(self->Object_0 == *members);
                        assert(decreases_to!(*self => self->Object_0));
                        assert(decreases_to!(*members => members[i as int]));
                        assert(decreases_to!(members[i as int] => members[i as int].1));
                    }
                    let value = members[i].1.duplicate();
                    out.push((members[i].0.clone(), value));
                    i += 1;
                }
                let copy = JsonValue::Object(out);
                assert(json_members_model(out@) =~= json_members_model(members@));
                copy
            },
        }
    }

    /// Whether the value is a JSON object.
    pub open spec fn is_object(&self) -> bool {
        self is Object
    }

    /// The members of an object; no members for any other value.
    pub open spec fn members(&self) -> Seq<(String, JsonValue)> {
        match self {
            JsonValue::Object(m) => m@,
            _ => Seq::empty(),
        }
    }

    /// The members of an object, and an empty member list for every other
    /// kind of value: arguments that are not an object count as no arguments.
    pub fn into_members(self) -> (members: Vec<(String, JsonValue)>)
        ensures
            members@ == self.members(),
            self matches JsonValue::Object(m) ==> members == m,
            !self.is_object() ==> members@.len() == 0,
    {
        match self {
            JsonValue::Object(m) => m,
            _ => Vec::new(),
        }
    }
}

} // verus!
