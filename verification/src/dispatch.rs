//! Validation of a tool call: from the name and the arguments of a call to
//! the operation it asks for, or to the error that refuses it.

use vstd::prelude::*;
use vstd::string::*;
use crate::json::{count_member, count_members, text_member, text_members};
use crate::text::{chars_of, clone_text, optional_text};
use crate::tools::{ToolName, is_registered, lemma_names_distinct, name_of, required_of};

verus! {

/// The two forms in which a result can be rendered.
#[derive(Debug, Clone, Copy, PartialEq, Eq, Structural)]
pub enum OutputFormat {
    Text,
    Json,
}

/// Whether a string is `json`, whatever the case of its letters.
pub open spec fn names_json(s: Seq<char>) -> bool {
    &&& s.len() == 4
    &&& (s[0] == 'j' || s[0] == 'J')
    &&& (s[1] == 's' || s[1] == 'S')
    &&& (s[2] == 'o' || s[2] == 'O')
    &&& (s[3] == 'n' || s[3] == 'N')
}

/// The format that a `format` argument selects: JSON where it names it,
/// text where it is missing or says anything else.
pub open spec fn format_of(arg: Option<Seq<char>>) -> OutputFormat {
    match arg {
        Some(s) => if names_json(s) {
            OutputFormat::Json
        } else {
            OutputFormat::Text
        },
        None => OutputFormat::Text,
    }
}

impl OutputFormat {
    /// The format that a `format` argument selects.
    pub fn from_argument(arg: &Option<String>) -> (r: OutputFormat)
        ensures
            r == format_of(optional_text(*arg)),
    {
        match arg {
            Some(s) => {
                let c = chars_of(s.as_str());
                if c.len() != 4 {
                    return OutputFormat::Text;
                }
                let c0 = c[0];
                let c1 = c[1];
                let c2 = c[2];
                let c3 = c[3];
                if (c0 == 'j' || c0 == 'J') && (c1 == 's' || c1 == 'S') && (c2 == 'o' || c2 == 'O')
                    && (c3 == 'n' || c3 == 'N') {
                    OutputFormat::Json
                } else {
                    OutputFormat::Text
                }
            },
            None => OutputFormat::Text,
        }
    }
}

/// The arguments of a call that some tool reads, already taken out of the
/// document that carried them. A text argument is missing where the
/// document has no such member or holds no string there; `limit` is missing
/// unless it is a non-negative integer.
#[derive(Debug, Clone)]
pub struct Arguments {
    /// Whether the call carried an arguments document at all.
    pub present: bool,
    pub namespace: Option<String>,
    pub query: Option<String>,
    pub rule_name: Option<String>,
    pub domain: Option<String>,
    pub category: Option<String>,
    pub path: Option<String>,
    pub route_key: Option<String>,
    pub partial: Option<String>,
    pub format: Option<String>,
    pub limit: Option<u64>,
}

/// The arguments of a call, as a mathematical value.
pub struct ArgumentsModel {
    pub present: bool,
    pub namespace: Option<Seq<char>>,
    pub query: Option<Seq<char>>,
    pub rule_name: Option<Seq<char>>,
    pub domain: Option<Seq<char>>,
    pub category: Option<Seq<char>>,
    pub path: Option<Seq<char>>,
    pub route_key: Option<Seq<char>>,
    pub partial: Option<Seq<char>>,
    pub format: Option<Seq<char>>,
    pub limit: Option<u64>,
}

impl View for Arguments {
    type V = ArgumentsModel;

    open spec fn view(&self) -> ArgumentsModel {
        ArgumentsModel {
            present: self.present,
            namespace: optional_text(self.namespace),
            query: optional_text(self.query),
            rule_name: optional_text(self.rule_name),
            domain: optional_text(self.domain),
            category: optional_text(self.category),
            path: optional_text(self.path),
            route_key: optional_text(self.route_key),
            partial: optional_text(self.partial),
            format: optional_text(self.format),
            limit: self.limit,
        }
    }
}

/// The string that an arguments document holds under `key`.
pub open spec fn text_at(doc: Option<serde_json::Value>, key: Seq<char>) -> Option<Seq<char>> {
    match doc {
        Some(d) => if text_members(d).contains_key(key) {
            Some(text_members(d)[key])
        } else {
            None
        },
        None => None,
    }
}

/// The non-negative integer that an arguments document holds under `key`.
pub open spec fn count_at(doc: Option<serde_json::Value>, key: Seq<char>) -> Option<u64> {
    match doc {
        Some(d) => if count_members(d).contains_key(key) {
            Some(count_members(d)[key])
        } else {
            None
        },
        None => None,
    }
}

/// The arguments that a document carries.
pub open spec fn arguments_in(doc: Option<serde_json::Value>) -> ArgumentsModel {
    ArgumentsModel {
        present: doc.is_some(),
        namespace: text_at(doc, "namespace"@),
        query: text_at(doc, "query"@),
        rule_name: text_at(doc, "rule_name"@),
        domain: text_at(doc, "domain"@),
        category: text_at(doc, "category"@),
        path: text_at(doc, "path"@),
        route_key: text_at(doc, "route_key"@),
        partial: text_at(doc, "partial"@),
        format: text_at(doc, "format"@),
        limit: count_at(doc, "limit"@),
    }
}

/// The deref of an optional reference, for contracts.
pub open spec fn referent(doc: Option<&serde_json::Value>) -> Option<serde_json::Value> {
    match doc {
        Some(d) => Some(*d),
        None => None,
    }
}

fn read_text(doc: Option<&serde_json::Value>, key: &str) -> (r: Option<String>)
    ensures
        optional_text(r) == text_at(referent(doc), key@),
{
    match doc {
        Some(d) => match text_member(d, key) {
            Some(s) => Some(String::from_str(s)),
            None => None,
        },
        None => None,
    }
}

fn read_count(doc: Option<&serde_json::Value>, key: &str) -> (r: Option<u64>)
    ensures
        r == count_at(referent(doc), key@),
{
    match doc {
        Some(d) => count_member(d, key),
        None => None,
    }
}

impl Arguments {
    /// Takes out of an arguments document what the tools read.
    pub fn read(doc: Option<&serde_json::Value>) -> (r: Arguments)
        ensures
            r@ == arguments_in(referent(doc)),
    {
        Arguments {
            present: doc.is_some(),
            namespace: read_text(doc, "namespace"),
            query: read_text(doc, "query"),
            rule_name: read_text(doc, "rule_name"),
            domain: read_text(doc, "domain"),
            category: read_text(doc, "category"),
            path: read_text(doc, "path"),
            route_key: read_text(doc, "route_key"),
            partial: read_text(doc, "partial"),
            format: read_text(doc, "format"),
            limit: read_count(doc, "limit"),
        }
    }
}


/// A validated call: the operation and what it was given.
#[derive(Debug, Clone)]
#[allow(inconsistent_fields)]
pub enum ToolCall {
    GetAllNamespaces { format: OutputFormat },
    GetNamespace { namespace: String, format: OutputFormat },
    SearchNamespaces { query: Option<String> },
    GetRadarRules { format: OutputFormat },
    GetRadarRule { rule_name: String, format: OutputFormat },
    GetCategories,
    GetCategory { category: String, format: OutputFormat },
    GetFeed { path: String, format: OutputFormat },
    SearchRoutes { query: String, namespace: Option<String>, limit: Option<u64>, format: OutputFormat },
    GetRouteDetail { namespace: String, route_key: String, format: OutputFormat },
    SuggestRouteKeys { namespace: String, partial: String, limit: Option<u64> },
}

/// A validated call, as a mathematical value.
#[allow(inconsistent_fields)]
pub enum ToolCallModel {
    GetAllNamespaces { format: OutputFormat },
    GetNamespace { namespace: Seq<char>, format: OutputFormat },
    SearchNamespaces { query: Option<Seq<char>> },
    GetRadarRules { format: OutputFormat },
    GetRadarRule { rule_name: Seq<char>, format: OutputFormat },
    GetCategories,
    GetCategory { category: Seq<char>, format: OutputFormat },
    GetFeed { path: Seq<char>, format: OutputFormat },
    SearchRoutes {
        query: Seq<char>,
        namespace: Option<Seq<char>>,
        limit: Option<u64>,
        format: OutputFormat,
    },
    GetRouteDetail { namespace: Seq<char>, route_key: Seq<char>, format: OutputFormat },
    SuggestRouteKeys { namespace: Seq<char>, partial: Seq<char>, limit: Option<u64> },
}

impl View for ToolCall {
    type V = ToolCallModel;

    open spec fn view(&self) -> ToolCallModel {
        match *self {
            ToolCall::GetAllNamespaces { format } => ToolCallModel::GetAllNamespaces { format },
            ToolCall::GetNamespace { namespace, format } => ToolCallModel::GetNamespace {
                namespace: namespace@,
                format,
            },
            ToolCall::SearchNamespaces { query } => ToolCallModel::SearchNamespaces {
                query: optional_text(query),
            },
            ToolCall::GetRadarRules { format } => ToolCallModel::GetRadarRules { format },
            ToolCall::GetRadarRule { rule_name, format } => ToolCallModel::GetRadarRule {
                rule_name: rule_name@,
                format,
            },
            ToolCall::GetCategories => ToolCallModel::GetCategories,
            ToolCall::GetCategory { category, format } => ToolCallModel::GetCategory {
                category: category@,
                format,
            },
            ToolCall::GetFeed { path, format } => ToolCallModel::GetFeed { path: path@, format },
            ToolCall::SearchRoutes { query, namespace, limit, format } => ToolCallModel::SearchRoutes {
                query: query@,
                namespace: optional_text(namespace),
                limit,
                format,
            },
            ToolCall::GetRouteDetail { namespace, route_key, format } => ToolCallModel::GetRouteDetail {
                namespace: namespace@,
                route_key: route_key@,
                format,
            },
            ToolCall::SuggestRouteKeys { namespace, partial, limit } => ToolCallModel::SuggestRouteKeys {
                namespace: namespace@,
                partial: partial@,
                limit,
            },
        }
    }
}

/// Why a call was refused before any operation ran.
#[derive(Debug, Clone)]
pub enum McpError {
    /// A required argument is missing or is no string.
    InvalidParams(String),
    /// No tool has the name that was called.
    MethodNotFound(String),
}

/// A refusal, as a mathematical value.
pub enum McpErrorModel {
    InvalidParams(Seq<char>),
    MethodNotFound(Seq<char>),
}

impl View for McpError {
    type V = McpErrorModel;

    open spec fn view(&self) -> McpErrorModel {
        match *self {
            McpError::InvalidParams(m) => McpErrorModel::InvalidParams(m@),
            McpError::MethodNotFound(m) => McpErrorModel::MethodNotFound(m@),
        }
    }
}

impl McpError {
    /// The message of the refusal.
    pub fn message(&self) -> (r: &str)
        ensures
            r@ == match self@ {
                McpErrorModel::InvalidParams(m) => m,
                McpErrorModel::MethodNotFound(m) => m,
            },
    {
        match self {
            McpError::InvalidParams(m) => m.as_str(),
            McpError::MethodNotFound(m) => m.as_str(),
        }
    }
}

/// The outcome of a validation, as a mathematical value.
pub open spec fn outcome_view(r: Result<ToolCall, McpError>) -> Result<ToolCallModel, McpErrorModel> {
    match r {
        Ok(call) => Ok(call@),
        Err(e) => Err(e@),
    }
}

/// The refusal for a missing argument, with its message.
pub open spec fn missing(message: Seq<char>) -> Result<ToolCallModel, McpErrorModel> {
    Err(McpErrorModel::InvalidParams(message))
}

/// What a call of `tool` with the arguments `a` asks for.
///
/// The three tools that work on routes refuse a call without an arguments
/// document before they look for any argument; the others treat it as a
/// document without members. The rule of a radar lookup may come as
/// `rule_name` or, where that is missing, as `domain`.
pub open spec fn decoded_for(tool: ToolName, a: ArgumentsModel) -> Result<
    ToolCallModel,
    McpErrorModel,
> {
    match tool {
        ToolName::GetAllNamespaces => Ok(
            ToolCallModel::GetAllNamespaces { format: format_of(a.format) },
        ),
        ToolName::GetNamespace => match a.namespace {
            Some(namespace) => Ok(
                ToolCallModel::GetNamespace { namespace, format: format_of(a.format) },
            ),
            None => missing("namespace parameter is required"@),
        },
        ToolName::SearchNamespaces => Ok(ToolCallModel::SearchNamespaces { query: a.query }),
        ToolName::GetRadarRules => Ok(ToolCallModel::GetRadarRules { format: format_of(a.format) }),
        ToolName::GetRadarRule => match a.rule_name {
            Some(rule_name) => Ok(
                ToolCallModel::GetRadarRule { rule_name, format: format_of(a.format) },
            ),
            None => match a.domain {
                Some(rule_name) => Ok(
                    ToolCallModel::GetRadarRule { rule_name, format: format_of(a.format) },
                ),
                None => missing("rule_name or domain parameter is required"@),
            },
        },
        ToolName::GetCategories => Ok(ToolCallModel::GetCategories),
        ToolName::GetCategory => match a.category {
            Some(category) => Ok(
                ToolCallModel::GetCategory { category, format: format_of(a.format) },
            ),
            None => missing("category parameter is required"@),
        },
        ToolName::GetFeed => match a.path {
            Some(path) => Ok(ToolCallModel::GetFeed { path, format: format_of(a.format) }),
            None => missing("path parameter is required"@),
        },
        ToolName::SearchRoutes => if !a.present {
            missing("arguments are required"@)
        } else {
            match a.query {
                Some(query) => Ok(
                    ToolCallModel::SearchRoutes {
                        query,
                        namespace: a.namespace,
                        limit: a.limit,
                        format: format_of(a.format),
                    },
                ),
                None => missing("query parameter is required"@),
            }
        },
        ToolName::GetRouteDetail => if !a.present {
            missing("arguments are required"@)
        } else {
            match (a.namespace, a.route_key) {
                (None, _) => missing("namespace parameter is required"@),
                (Some(_), None) => missing("route_key parameter is required"@),
                (Some(namespace), Some(route_key)) => Ok(
                    ToolCallModel::GetRouteDetail {
                        namespace,
                        route_key,
                        format: format_of(a.format),
                    },
                ),
            }
        },
        ToolName::SuggestRouteKeys => if !a.present {
            missing("arguments are required"@)
        } else {
            match (a.namespace, a.partial) {
                (None, _) => missing("namespace parameter is required"@),
                (Some(_), None) => missing("partial parameter is required"@),
                (Some(namespace), Some(partial)) => Ok(
                    ToolCallModel::SuggestRouteKeys { namespace, partial, limit: a.limit },
                ),
            }
        },
    }
}

/// What a call by `name` with the arguments `a` asks for: the decision of
/// the tool of that name, or the refusal of a name that no tool has.
pub open spec fn decoded(name: Seq<char>, a: ArgumentsModel) -> Result<ToolCallModel, McpErrorModel> {
    if is_registered(name) {
        decoded_for(choose|tool: ToolName| name_of(tool) == name, a)
    } else {
        Err(McpErrorModel::MethodNotFound("Unknown tool: "@ + name))
    }
}

fn refuse(message: &str) -> (r: Result<ToolCall, McpError>)
    ensures
        outcome_view(r) == missing(message@),
{
    Err(McpError::InvalidParams(String::from_str(message)))
}

/// Validates a call of `tool`.
pub fn decode_for(tool: ToolName, a: &Arguments) -> (r: Result<ToolCall, McpError>)
    ensures
        outcome_view(r) == decoded_for(tool, a@),
{
    let format = OutputFormat::from_argument(&a.format);
    match tool {
        ToolName::GetAllNamespaces => Ok(ToolCall::GetAllNamespaces { format }),
        ToolName::GetNamespace => match &a.namespace {
            Some(namespace) => Ok(ToolCall::GetNamespace { namespace: namespace.clone(), format }),
            None => refuse("namespace parameter is required"),
        },
        ToolName::SearchNamespaces => Ok(
            ToolCall::SearchNamespaces { query: clone_text(&a.query) },
        ),
        ToolName::GetRadarRules => Ok(ToolCall::GetRadarRules { format }),
        ToolName::GetRadarRule => match &a.rule_name {
            Some(rule_name) => Ok(ToolCall::GetRadarRule { rule_name: rule_name.clone(), format }),
            None => match &a.domain {
                Some(rule_name) => Ok(
                    ToolCall::GetRadarRule { rule_name: rule_name.clone(), format },
                ),
                None => refuse("rule_name or domain parameter is required"),
            },
        },
        ToolName::GetCategories => Ok(ToolCall::GetCategories),
        ToolName::GetCategory => match &a.category {
            Some(category) => Ok(ToolCall::GetCategory { category: category.clone(), format }),
            None => refuse("category parameter is required"),
        },
        ToolName::GetFeed => match &a.path {
            Some(path) => Ok(ToolCall::GetFeed { path: path.clone(), format }),
            None => refuse("path parameter is required"),
        },
        ToolName::SearchRoutes => {
            if !a.present {
                return refuse("arguments are required");
            }
            match &a.query {
                Some(query) => Ok(
                    ToolCall::SearchRoutes {
                        query: query.clone(),
                        namespace: clone_text(&a.namespace),
                        limit: a.limit,
                        format,
                    },
                ),
                None => refuse("query parameter is required"),
            }
        },
        ToolName::GetRouteDetail => {
            if !a.present {
                return refuse("arguments are required");
            }
            match (&a.namespace, &a.route_key) {
                (None, _) => refuse("namespace parameter is required"),
                (Some(_), None) => refuse("route_key parameter is required"),
                (Some(namespace), Some(route_key)) => Ok(
                    ToolCall::GetRouteDetail {
                        namespace: namespace.clone(),
                        route_key: route_key.clone(),
                        format,
                    },
                ),
            }
        },
        ToolName::SuggestRouteKeys => {
            if !a.present {
                return refuse("arguments are required");
            }
            match (&a.namespace, &a.partial) {
                (None, _) => refuse("namespace parameter is required"),
                (Some(_), None) => refuse("partial parameter is required"),
                (Some(namespace), Some(partial)) => Ok(
                    ToolCall::SuggestRouteKeys {
                        namespace: namespace.clone(),
                        partial: partial.clone(),
                        limit: a.limit,
                    },
                ),
            }
        },
    }
}

/// Validates a call by name: finds the tool, checks that every argument it
/// needs is there, and gives the operation to run.
pub fn decode(name: &str, a: &Arguments) -> (r: Result<ToolCall, McpError>)
    ensures
        outcome_view(r) == decoded(name@, a@),
{
    match ToolName::parse(name) {
        Some(tool) => {
            proof {
                let chosen = choose|t: ToolName| name_of(t) == name@;
                lemma_names_distinct(tool, chosen);
            }
            decode_for(tool, a)
        },
        None => {
            let mut message = String::from_str("Unknown tool: ");
            message.append(name);
            Err(McpError::MethodNotFound(message))
        },
    }
}

/// Validates a call as it arrives, with its arguments still in their
/// document.
pub fn handle_tool_call(name: &str, arguments: Option<&serde_json::Value>) -> (r: Result<
    ToolCall,
    McpError,
>)
    ensures
        outcome_view(r) == decoded(name@, arguments_in(referent(arguments))),
{
    let a = Arguments::read(arguments);
    decode(name, &a)
}

/// A name that no tool has is refused as unknown, and only such a name.
pub proof fn lemma_unknown_tool_refused(name: Seq<char>, a: ArgumentsModel)
    ensures
        !is_registered(name) <==> decoded(name, a) == Err::<ToolCallModel, McpErrorModel>(
            McpErrorModel::MethodNotFound("Unknown tool: "@ + name),
        ),
{
    if is_registered(name) {
        let tool = choose|tool: ToolName| name_of(tool) == name;
        assert(decoded_for(tool, a) is Ok || decoded_for(tool, a) matches Err(
            McpErrorModel::InvalidParams(_),
        ));
    }
}

/// The text argument of the given name.
pub open spec fn text_argument_of(a: ArgumentsModel, name: Seq<char>) -> Option<Seq<char>> {
    if name == "namespace"@ {
        a.namespace
    } else if name == "query"@ {
        a.query
    } else if name == "rule_name"@ {
        a.rule_name
    } else if name == "domain"@ {
        a.domain
    } else if name == "category"@ {
        a.category
    } else if name == "path"@ {
        a.path
    } else if name == "route_key"@ {
        a.route_key
    } else if name == "partial"@ {
        a.partial
    } else if name == "format"@ {
        a.format
    } else {
        None
    }
}

/// A call that lacks an argument which the schema of its tool requires is
/// refused with invalid parameters.
pub proof fn lemma_required_argument_missing(tool: ToolName, a: ArgumentsModel, i: int)
    requires
        0 <= i < required_of(tool).len(),
        text_argument_of(a, required_of(tool)[i]).is_none(),
    ensures
        decoded_for(tool, a) matches Err(McpErrorModel::InvalidParams(_)),
{
    reveal_strlit("namespace");
    reveal_strlit("query");
    reveal_strlit("rule_name");
    reveal_strlit("domain");
    reveal_strlit("category");
    reveal_strlit("path");
    reveal_strlit("route_key");
    reveal_strlit("partial");
    let name = required_of(tool)[i];
    let ns = "namespace"@;
    match tool {
        ToolName::GetNamespace => {
            assert(name == ns);
        },
        ToolName::GetCategory => {
            assert(name == "category"@);
            assert(name.len() == 8);
            assert(name[0] == 'c');
        },
        ToolName::GetFeed => {
            assert(name == "path"@);
            assert(name.len() == 4);
        },
        ToolName::SearchRoutes => {
            assert(name == "query"@);
            assert(name.len() == 5);
        },
        ToolName::GetRouteDetail => {
            if i == 0 {
                assert(name == ns);
            } else {
                assert(name == "route_key"@);
                assert(name.len() == 9);
                assert(name[0] == 'r');
                assert(name[1] == 'o');
            }
        },
        ToolName::SuggestRouteKeys => {
            if i == 0 {
                assert(name == ns);
            } else {
                assert(name == "partial"@);
                assert(name.len() == 7);
            }
        },
        _ => {},
    }
}

} // verus!
