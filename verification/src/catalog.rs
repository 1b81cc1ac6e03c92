//! The catalogue of tools: what a server's listing becomes, the catalogue
//! over all servers, and the check of a tool's input schema.

use crate::error::ManagerError;
use crate::manager::MCPServerManager;
use crate::registry::{has_name, Entries};
use crate::schema::{
    contains_property, first_missing, has_property, JSONSchema, JSONSchemaType,
};
use crate::tool::{MCPTool, RawTool, SchemaError};
use vstd::prelude::*;

verus! {

/// A server's answer to the request for its tools: the tools, or the message
/// of the cause for which the request failed.
pub type ListResponse = Result<Vec<RawTool>, String>;

/// Whether `verdict` is the verdict on the input schema of `tool`: `Ok`
/// exactly if the schema can serve as a tool's input, and else the reason,
/// with the tool's name: that the schema is no object, that names are
/// required where there are no properties, or the first required name that
/// is no property.
pub open spec fn is_verdict(tool: MCPTool, verdict: Result<(), SchemaError>) -> bool {
    match verdict {
        Ok(_) => tool.has_valid_schema(),
        Err(SchemaError::NotObject { tool: t }) => {
            &&& t@ == tool.name@
            &&& !tool.input_schema.is_object()
        },
        Err(SchemaError::NoProperties { tool: t }) => {
            &&& t@ == tool.name@
            &&& tool.input_schema.schema_type matches JSONSchemaType::Object {
                properties,
                required,
                ..
            }
            &&& required is Some
            &&& properties is None
        },
        Err(SchemaError::MissingProperty { tool: t, field }) => {
            &&& t@ == tool.name@
            &&& tool.input_schema.schema_type matches JSONSchemaType::Object {
                properties,
                required,
                ..
            }
            &&& required matches Some(names)
            &&& properties matches Some(p)
            &&& exists|k: int| first_missing(names@, p@, k) && field@ == names@[k]@
        },
    }
}

/// Whether `listing` is what the tools of `server` are, given the server's
/// answer: an error that names the server where it is not registered, an
/// error that names the server and carries the cause where its answer is a
/// failure, and else one tool for each listed tool, in the order listed.
pub open spec fn is_listing<C>(
    entries: Entries<C>,
    server: Seq<char>,
    response: ListResponse,
    listing: Result<Vec<MCPTool>, ManagerError>,
) -> bool {
    if !has_name(entries, server) {
        &&& listing matches Err(ManagerError::ServerNotFound(n))
        &&& n@ == server
    } else {
        match response {
            Err(cause) => {
                &&& listing matches Err(ManagerError::ListFailed { server: s, cause: c })
                &&& s@ == server
                &&& c == cause
            },
            Ok(raw) => {
                &&& listing matches Ok(tools)
                &&& tools@.len() == raw@.len()
                &&& forall|i: int| 0 <= i < tools@.len() ==> (#[trigger] tools@[i]).carries(raw@[i])
            },
        }
    }
}

/// The tools that one answer adds to the catalogue over all servers, each
/// with the name of its server: the listed tools where the server is
/// registered and answered, and none where it is not or its answer is a
/// failure.
pub open spec fn offered<C>(entries: Entries<C>, answer: (String, ListResponse)) -> Seq<
    (Seq<char>, RawTool),
> {
    match answer.1 {
        Ok(raw) if has_name(entries, answer.0@) => Seq::new(
            raw@.len(),
            |i: int| (answer.0@, raw@[i]),
        ),
        _ => Seq::empty(),
    }
}

/// The tools of the catalogue over all servers, each with the name of its
/// server: what the answers offer, one answer after the other.
pub open spec fn catalogue_sources<C>(entries: Entries<C>, answers: Seq<(String, ListResponse)>) -> Seq<
    (Seq<char>, RawTool),
>
    decreases answers.len(),
{
    if answers.len() == 0 {
        Seq::empty()
    } else {
        catalogue_sources(entries, answers.drop_last()) + offered(entries, answers.last())
    }
}

/// Every tool of the catalogue over all servers comes from a registered
/// server.
pub proof fn law_catalogue_servers_are_registered<C>(
    entries: Entries<C>,
    answers: Seq<(String, ListResponse)>,
    i: int,
)
    requires
        0 <= i < catalogue_sources(entries, answers).len(),
    ensures
        has_name(entries, catalogue_sources(entries, answers)[i].0),
    decreases answers.len(),
{
    if answers.len() > 0 {
        let before = catalogue_sources(entries, answers.drop_last());
        if i < before.len() {
            law_catalogue_servers_are_registered(entries, answers.drop_last(), i);
        } else {
            let added = offered(entries, answers.last());
            assert(catalogue_sources(entries, answers)[i] == added[i - before.len()]);
        }
    }
}

/// An answer that is a failure, or that comes from a server that is not
/// registered, adds nothing to the catalogue over all servers and takes
/// nothing from it.
pub proof fn law_failed_answer_adds_nothing<C>(
    entries: Entries<C>,
    answers: Seq<(String, ListResponse)>,
    answer: (String, ListResponse),
)
    requires
        answer.1 is Err || !has_name(entries, answer.0@),
    ensures
        catalogue_sources(entries, answers.push(answer)) == catalogue_sources(entries, answers),
{
    assert(answers.push(answer).drop_last() =~= answers);
    assert(offered(entries, answer) =~= Seq::empty());
    assert(catalogue_sources(entries, answers) + offered(entries, answer)
        =~= catalogue_sources(entries, answers));
}

/// The answer of a registered server adds each of its tools to the catalogue
/// over all servers, after the tools of the answers before it and in the
/// order listed.
pub proof fn law_answer_adds_its_tools<C>(
    entries: Entries<C>,
    answers: Seq<(String, ListResponse)>,
    answer: (String, ListResponse),
)
    requires
        has_name(entries, answer.0@),
        answer.1 is Ok,
    ensures
        catalogue_sources(entries, answers.push(answer)) == catalogue_sources(entries, answers)
            + Seq::new(
            answer.1->Ok_0@.len(),
            |i: int| (answer.0@, answer.1->Ok_0@[i]),
        ),
{
    assert(answers.push(answer).drop_last() =~= answers);
}

/// In a catalogue, every tool's name is the name of its server, the
/// separator and the name under which the server listed it: no tool keeps
/// its bare name.
pub proof fn law_catalogue_names_are_prefixed(
    tools: Seq<MCPTool>,
    sources: Seq<(Seq<char>, RawTool)>,
    i: int,
)
    requires
        is_catalogue(tools, sources),
        0 <= i < tools.len(),
    ensures
        tools[i].name@ == sources[i].0 + crate::tool::name_separator() + sources[i].1.name@,
        tools[i].name@.len() == sources[i].0.len() + 2 + sources[i].1.name@.len(),
        tools[i].name@ != sources[i].1.name@,
{
    reveal_strlit("__");
    assert(tools[i].carries_from(sources[i].0, sources[i].1));
}

/// Whether `tools` is the catalogue made of `sources`: one tool for each, in
/// that order, named by its server's name and its own.
pub open spec fn is_catalogue(tools: Seq<MCPTool>, sources: Seq<(Seq<char>, RawTool)>) -> bool {
    &&& tools.len() == sources.len()
    &&& forall|i: int|
        0 <= i < tools.len() ==> (#[trigger] tools[i]).carries_from(sources[i].0, sources[i].1)
}

/// The tools among `tools` whose input schema can serve as one, in order.
pub open spec fn valid_among(tools: Seq<MCPTool>) -> Seq<MCPTool> {
    tools.filter(|t: MCPTool| t.has_valid_schema())
}

/// The tools among `tools` whose input schema cannot serve as one, in order.
pub open spec fn invalid_among(tools: Seq<MCPTool>) -> Seq<MCPTool> {
    tools.filter(|t: MCPTool| !t.has_valid_schema())
}

/// Tools sorted by the verdict on their input schema.
#[derive(Debug, PartialEq, Eq)]
pub struct ValidationReport {
    /// The tools whose input schema can serve as one.
    pub accepted: Vec<MCPTool>,
    /// The other tools, each with the reason for which it was turned down.
    pub rejected: Vec<(MCPTool, SchemaError)>,
}

impl ValidationReport {
    /// Whether this is the report on `tools`: the valid tools in order, and
    /// the invalid tools in order, each with the verdict on it.
    pub open spec fn reports(&self, tools: Seq<MCPTool>) -> bool {
        &&& self.accepted@ == valid_among(tools)
        &&& self.rejected@.len() == invalid_among(tools).len()
        &&& forall|i: int|
            0 <= i < self.rejected@.len() ==> (#[trigger] self.rejected@[i]).0 == invalid_among(
                tools,
            )[i] && is_verdict(self.rejected@[i].0, Err(self.rejected@[i].1))
    }
}

/// The items of `items` in reverse order.
fn reversed<T>(items: Vec<T>) -> (out: Vec<T>)
    ensures
        out@ == items@.reverse(),
{
    let mut rest = items;
    let mut out: Vec<T> = Vec::new();
    while rest.len() > 0
        invariant
            rest@.len() + out@.len() == items@.len(),
            forall|j: int| 0 <= j < rest@.len() ==> rest@[j] == items@[j],
            forall|j: int| 0 <= j < out@.len() ==> out@[j] == items@[items@.len() - 1 - j],
        decreases rest@.len(),
    {
        match rest.pop() {
            Some(item) => out.push(item),
            None => {},
        }
    }
    assert(out@ =~= items@.reverse());
    out
}

/// The first place in `required` whose name is not among `properties`, if
/// there is one.
pub fn first_missing_name(required: &Vec<String>, properties: &Vec<(String, JSONSchema)>) -> (found:
    Option<usize>)
    ensures
        match found {
            Some(k) => first_missing(required@, properties@, k as int),
            None => forall|j: int|
                0 <= j < required@.len() ==> has_property(properties@, (#[trigger] required@[j])@),
        },
{
    let mut i: usize = 0;
    while i < required.len()
        invariant
            i <= required@.len(),
            forall|j: int| 0 <= j < i ==> has_property(properties@, (#[trigger] required@[j])@),
        decreases required@.len() - i,
    {
        if !contains_property(properties, required[i].as_str()) {
            return Some(i);
        }
        i += 1;
    }
    None
}

/// Each tool of `listing` under the name `<server>__<name>`, in order.
pub fn prefix_all(server: &str, listing: Vec<MCPTool>) -> (out: Vec<MCPTool>)
    ensures
        out@.len() == listing@.len(),
        forall|i: int|
            0 <= i < out@.len() ==> (#[trigger] out@[i]).prefixed_by(server@, listing@[i]),
{
    let ghost all = listing@;
    let mut rest = reversed(listing);
    let mut out: Vec<MCPTool> = Vec::new();
    while rest.len() > 0
        invariant
            rest@.len() + out@.len() == all.len(),
            forall|j: int| 0 <= j < rest@.len() ==> rest@[j] == all[all.len() - 1 - j],
            forall|j: int| 0 <= j < out@.len() ==> (#[trigger] out@[j]).prefixed_by(server@, all[j]),
        decreases rest@.len(),
    {
        match rest.pop() {
            Some(tool) => out.push(tool.with_server_prefix(server)),
            None => {},
        }
    }
    out
}

impl<C> MCPServerManager<C> {
    /// Checks that the input schema of `tool` can serve as one: it is an
    /// object, and each name it requires is among its properties.
    pub fn validate_tool_schema(tool: &MCPTool) -> (verdict: Result<(), SchemaError>)
        ensures
            is_verdict(*tool, verdict),
            verdict is Ok <==> tool.has_valid_schema(),
    {
        match &tool.input_schema.schema_type {
            JSONSchemaType::Object { properties, required, .. } => match required {
                None => Ok(()),
                Some(names) => match properties {
                    None => Err(SchemaError::NoProperties { tool: tool.name.clone() }),
                    Some(p) => match first_missing_name(names, p) {
                        Some(k) => Err(
                            SchemaError::MissingProperty {
                                tool: tool.name.clone(),
                                field: names[k].clone(),
                            },
                        ),
                        None => Ok(()),
                    },
                },
            },
            _ => Err(SchemaError::NotObject { tool: tool.name.clone() }),
        }
    }

    /// The tools of `server_name`, made of the server's answer: one tool for
    /// each listed tool, in the order listed, with its name, its description
    /// and its input schema. Fails where the server is not registered, and
    /// where its answer is a failure; the error names the server, and no
    /// part of a listing is returned with it.
    pub fn list_tools(&self, server_name: &str, response: ListResponse) -> (listing: Result<
        Vec<MCPTool>,
        ManagerError,
    >)
        ensures
            is_listing(self@, server_name@, response, listing),
    {
        if !self.is_server_alive(server_name) {
            return Err(ManagerError::ServerNotFound(server_name.to_owned()));
        }
        match response {
            Err(cause) => Err(
                ManagerError::ListFailed { server: server_name.to_owned(), cause },
            ),
            Ok(raw) => {
                let ghost listed = raw@;
                let mut rest = reversed(raw);
                let mut tools: Vec<MCPTool> = Vec::new();
                while rest.len() > 0
                    invariant
                        rest@.len() + tools@.len() == listed.len(),
                        forall|j: int|
                            0 <= j < rest@.len() ==> rest@[j] == listed[listed.len() - 1 - j],
                        forall|j: int|
                            0 <= j < tools@.len() ==> (#[trigger] tools@[j]).carries(listed[j]),
                    decreases rest@.len(),
                {
                    match rest.pop() {
                        Some(item) => tools.push(MCPTool::from_raw(item)),
                        None => {},
                    }
                }
                Ok(tools)
            },
        }
    }

    /// The catalogue over all servers, made of the servers' answers, each
    /// with the name of its server. The tools of one answer after those of
    /// the answer before it, each tool under the name `<server>__<name>`. An
    /// answer that is a failure, or that comes from a server that is not
    /// registered, adds nothing and fails nothing.
    pub fn list_all_tools(&self, answers: Vec<(String, ListResponse)>) -> (tools: Vec<MCPTool>)
        ensures
            is_catalogue(tools@, catalogue_sources(self@, answers@)),
    {
        let ghost all = answers@;
        let mut rest = reversed(answers);
        let mut tools: Vec<MCPTool> = Vec::new();
        let ghost mut seen: int = 0;
        proof {
            assert(all.take(0) =~= Seq::<(String, ListResponse)>::empty());
        }
        while rest.len() > 0
            invariant
                0 <= seen <= all.len(),
                rest@.len() + seen == all.len(),
                forall|j: int| 0 <= j < rest@.len() ==> rest@[j] == all[all.len() - 1 - j],
                is_catalogue(tools@, catalogue_sources(self@, all.take(seen))),
            decreases rest@.len(),
        {
            match rest.pop() {
                Some(answer) => {
                    let ghost before = catalogue_sources(self@, all.take(seen));
                    let ghost added = offered(self@, answer);
                    proof {
                        assert(answer == all[seen]);
                        assert(all.take(seen + 1).drop_last() =~= all.take(seen));
                        assert(all.take(seen + 1).last() == answer);
                        assert(catalogue_sources(self@, all.take(seen + 1)) == before + added);
                        seen = seen + 1;
                    }
                    let (server, response) = answer;
                    match self.list_tools(server.as_str(), response) {
                        Ok(listing) => {
                            let mut named = prefix_all(server.as_str(), listing);
                            let ghost earlier = tools@;
                            tools.append(&mut named);
                            assert forall|i: int| 0 <= i < tools@.len() implies (
                            #[trigger] tools@[i]).carries_from(
                                (before + added)[i].0,
                                (before + added)[i].1,
                            ) by {
                                if i < earlier.len() {
                                    assert(tools@[i] == earlier[i]);
                                } else {
                                    let k = i - earlier.len();
                                    assert(tools@[i].prefixed_by(server@, listing@[k]));
                                    assert(listing@[k].carries(added[k].1));
                                }
                            }
                        },
                        Err(_) => {
                            assert(added =~= Seq::empty());
                            assert(before + added =~= before);
                        },
                    }
                },
                None => {},
            }
        }
        assert(all.take(seen) =~= all);
        tools
    }

    /// Sorts `tools` by the verdict on their input schema: the valid ones,
    /// and the others with the reason for which each is turned down. Both
    /// keep their order.
    pub fn sort_by_validity(tools: Vec<MCPTool>) -> (report: ValidationReport)
        ensures
            report.reports(tools@),
    {
        let ghost all = tools@;
        let mut rest = reversed(tools);
        let mut accepted: Vec<MCPTool> = Vec::new();
        let mut rejected: Vec<(MCPTool, SchemaError)> = Vec::new();
        let ghost mut seen: int = 0;
        proof {
            reveal(Seq::filter);
            assert(all.take(0) =~= Seq::<MCPTool>::empty());
        }
        while rest.len() > 0
            invariant
                0 <= seen <= all.len(),
                rest@.len() + seen == all.len(),
                forall|j: int| 0 <= j < rest@.len() ==> rest@[j] == all[all.len() - 1 - j],
                (ValidationReport { accepted, rejected }).reports(all.take(seen)),
            decreases rest@.len(),
        {
            match rest.pop() {
                Some(tool) => {
                    proof {
                        assert(tool == all[seen]);
                        assert(all.take(seen + 1) =~= all.take(seen).push(tool));
                        all.take(seen).lemma_filter_push(tool, |t: MCPTool| t.has_valid_schema());
                        all.take(seen).lemma_filter_push(tool, |t: MCPTool| !t.has_valid_schema());
                        seen = seen + 1;
                    }
                    match Self::validate_tool_schema(&tool) {
                        Ok(_) => accepted.push(tool),
                        Err(reason) => rejected.push((tool, reason)),
                    }
                },
                None => {},
            }
        }
        assert(all.take(seen) =~= all);
        ValidationReport { accepted, rejected }
    }

    /// The tools of `server_name`, sorted by the verdict on their input
    /// schema: those that can be offered, and those that are left out, each
    /// with the reason. Fails as `list_tools` does.
    pub fn get_validated_tools(&self, server_name: &str, response: ListResponse) -> (validated:
        Result<ValidationReport, ManagerError>)
        ensures
            match validated {
                Ok(report) => exists|listing: Vec<MCPTool>|
                    is_listing(self@, server_name@, response, Ok(listing)) && report.reports(
                        listing@,
                    ),
                Err(e) => is_listing(self@, server_name@, response, Err(e)),
            },
    {
        match self.list_tools(server_name, response) {
            Ok(listing) => {
                let report = Self::sort_by_validity(listing);
                assert(is_listing(self@, server_name@, response, Ok(listing)));
                Ok(report)
            },
            Err(e) => Err(e),
        }
    }
}

} // verus!
