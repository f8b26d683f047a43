//! The tools that the dispatcher offers: a fixed catalog of names, each
//! with its description and the arguments it accepts.

use vstd::prelude::*;
use vstd::string::*;
use crate::text::str_eq;

verus! {

/// The tools, in the order in which the catalog lists them.
#[derive(Debug, Clone, Copy, PartialEq, Eq, Structural)]
pub enum ToolName {
    GetAllNamespaces,
    GetNamespace,
    SearchNamespaces,
    GetRadarRules,
    GetRadarRule,
    GetCategories,
    GetCategory,
    GetFeed,
    SearchRoutes,
    GetRouteDetail,
    SuggestRouteKeys,
}

/// The number of tools.
pub const TOOL_COUNT: usize = 11;

/// The tool at a position of the catalog.
pub open spec fn tool_at(i: int) -> ToolName {
    if i == 0 {
        ToolName::GetAllNamespaces
    } else if i == 1 {
        ToolName::GetNamespace
    } else if i == 2 {
        ToolName::SearchNamespaces
    } else if i == 3 {
        ToolName::GetRadarRules
    } else if i == 4 {
        ToolName::GetRadarRule
    } else if i == 5 {
        ToolName::GetCategories
    } else if i == 6 {
        ToolName::GetCategory
    } else if i == 7 {
        ToolName::GetFeed
    } else if i == 8 {
        ToolName::SearchRoutes
    } else if i == 9 {
        ToolName::GetRouteDetail
    } else {
        ToolName::SuggestRouteKeys
    }
}

/// The name under which a tool is called.
pub open spec fn name_of(tool: ToolName) -> Seq<char> {
    match tool {
        ToolName::GetAllNamespaces => "get_all_namespaces"@,
        ToolName::GetNamespace => "get_namespace"@,
        ToolName::SearchNamespaces => "search_namespaces"@,
        ToolName::GetRadarRules => "get_radar_rules"@,
        ToolName::GetRadarRule => "get_radar_rule"@,
        ToolName::GetCategories => "get_categories"@,
        ToolName::GetCategory => "get_category"@,
        ToolName::GetFeed => "get_feed"@,
        ToolName::SearchRoutes => "search_routes"@,
        ToolName::GetRouteDetail => "get_route_detail"@,
        ToolName::SuggestRouteKeys => "suggest_route_keys"@,
    }
}

/// Whether some tool is called by `name`.
pub open spec fn is_registered(name: Seq<char>) -> bool {
    exists|tool: ToolName| name_of(tool) == name
}

/// No two tools share a name.
pub proof fn lemma_names_distinct(a: ToolName, b: ToolName)
    requires
        name_of(a) == name_of(b),
    ensures
        a == b,
{
    reveal_strlit("get_all_namespaces");
    reveal_strlit("get_namespace");
    reveal_strlit("search_namespaces");
    reveal_strlit("get_radar_rules");
    reveal_strlit("get_radar_rule");
    reveal_strlit("get_categories");
    reveal_strlit("get_category");
    reveal_strlit("get_feed");
    reveal_strlit("search_routes");
    reveal_strlit("get_route_detail");
    reveal_strlit("suggest_route_keys");
    let x = name_of(a);
    let y = name_of(b);
    assert(x.len() == y.len());
    assert(x[0] == y[0]);
    assert(x[4] == y[4]);
}

impl ToolName {
    /// The name under which the tool is called.
    pub fn as_str(self) -> (r: &'static str)
        ensures
            r@ == name_of(self),
    {
        match self {
            ToolName::GetAllNamespaces => "get_all_namespaces",
            ToolName::GetNamespace => "get_namespace",
            ToolName::SearchNamespaces => "search_namespaces",
            ToolName::GetRadarRules => "get_radar_rules",
            ToolName::GetRadarRule => "get_radar_rule",
            ToolName::GetCategories => "get_categories",
            ToolName::GetCategory => "get_category",
            ToolName::GetFeed => "get_feed",
            ToolName::SearchRoutes => "search_routes",
            ToolName::GetRouteDetail => "get_route_detail",
            ToolName::SuggestRouteKeys => "suggest_route_keys",
        }
    }

    /// The tool that is called by `name`, if there is one.
    pub fn parse(name: &str) -> (r: Option<ToolName>)
        ensures
            match r {
                Some(tool) => name_of(tool) == name@,
                None => !is_registered(name@),
            },
    {
        if str_eq(name, "get_all_namespaces") {
            Some(ToolName::GetAllNamespaces)
        } else if str_eq(name, "get_namespace") {
            Some(ToolName::GetNamespace)
        } else if str_eq(name, "search_namespaces") {
            Some(ToolName::SearchNamespaces)
        } else if str_eq(name, "get_radar_rules") {
            Some(ToolName::GetRadarRules)
        } else if str_eq(name, "get_radar_rule") {
            Some(ToolName::GetRadarRule)
        } else if str_eq(name, "get_categories") {
            Some(ToolName::GetCategories)
        } else if str_eq(name, "get_category") {
            Some(ToolName::GetCategory)
        } else if str_eq(name, "get_feed") {
            Some(ToolName::GetFeed)
        } else if str_eq(name, "search_routes") {
            Some(ToolName::SearchRoutes)
        } else if str_eq(name, "get_route_detail") {
            Some(ToolName::GetRouteDetail)
        } else if str_eq(name, "suggest_route_keys") {
            Some(ToolName::SuggestRouteKeys)
        } else {
            assert forall|tool: ToolName| name_of(tool) != name@ by {
                match tool {
                    ToolName::GetAllNamespaces => {},
                    ToolName::GetNamespace => {},
                    ToolName::SearchNamespaces => {},
                    ToolName::GetRadarRules => {},
                    ToolName::GetRadarRule => {},
                    ToolName::GetCategories => {},
                    ToolName::GetCategory => {},
                    ToolName::GetFeed => {},
                    ToolName::SearchRoutes => {},
                    ToolName::GetRouteDetail => {},
                    ToolName::SuggestRouteKeys => {},
                }
            }
            None
        }
    }
}


/// What kind of value an argument takes.
#[derive(Debug, Clone, Copy, PartialEq, Eq, Structural)]
pub enum ArgumentKind {
    Text,
    Integer,
}

/// One argument that a tool accepts.
#[derive(Debug)]
pub struct ArgumentSchema {
    pub name: String,
    pub kind: ArgumentKind,
    pub description: String,
    /// The values a text argument is limited to; empty where any is taken.
    pub choices: Vec<String>,
    pub minimum: Option<u64>,
    pub maximum: Option<u64>,
}

/// An argument of a tool, as a mathematical value.
pub struct ArgumentModel {
    pub name: Seq<char>,
    pub kind: ArgumentKind,
    pub description: Seq<char>,
    pub choices: Seq<Seq<char>>,
    pub minimum: Option<u64>,
    pub maximum: Option<u64>,
}

impl View for ArgumentSchema {
    type V = ArgumentModel;

    open spec fn view(&self) -> ArgumentModel {
        ArgumentModel {
            name: self.name@,
            kind: self.kind,
            description: self.description@,
            choices: self.choices@.map_values(|s: String| s@),
            minimum: self.minimum,
            maximum: self.maximum,
        }
    }
}

/// One entry of the catalog of tools.
#[derive(Debug)]
pub struct ToolDescriptor {
    pub name: String,
    pub description: String,
    pub arguments: Vec<ArgumentSchema>,
    /// The names of the arguments that a call must carry.
    pub required: Vec<String>,
}

/// An entry of the catalog, as a mathematical value.
pub struct ToolModel {
    pub name: Seq<char>,
    pub description: Seq<char>,
    pub arguments: Seq<ArgumentModel>,
    pub required: Seq<Seq<char>>,
}

impl View for ToolDescriptor {
    type V = ToolModel;

    open spec fn view(&self) -> ToolModel {
        ToolModel {
            name: self.name@,
            description: self.description@,
            arguments: self.arguments@.map_values(|a: ArgumentSchema| a@),
            required: self.required@.map_values(|s: String| s@),
        }
    }
}

/// A text argument that takes any value.
pub open spec fn text_argument(name: Seq<char>, description: Seq<char>) -> ArgumentModel {
    ArgumentModel {
        name,
        kind: ArgumentKind::Text,
        description,
        choices: Seq::empty(),
        minimum: None,
        maximum: None,
    }
}

/// The argument that selects the output format, `text` or `json`.
pub open spec fn format_argument() -> ArgumentModel {
    ArgumentModel {
        name: "format"@,
        kind: ArgumentKind::Text,
        description: "Output format (default text)"@,
        choices: seq!["text"@, "json"@],
        minimum: None,
        maximum: None,
    }
}

/// The argument `limit`, an integer from 1 to `maximum`.
pub open spec fn limit_argument(maximum: u64, description: Seq<char>) -> ArgumentModel {
    ArgumentModel {
        name: "limit"@,
        kind: ArgumentKind::Integer,
        description,
        choices: Seq::empty(),
        minimum: Some(1u64),
        maximum: Some(maximum),
    }
}

/// What a tool does, in words.
pub open spec fn description_of(tool: ToolName) -> Seq<char> {
    match tool {
        ToolName::GetAllNamespaces => "Get all available namespaces in RSSHub"@,
        ToolName::GetNamespace => "Get routes for a specific namespace"@,
        ToolName::SearchNamespaces =>
            "Search for namespaces by keyword or list all available namespaces"@,
        ToolName::GetRadarRules => "Get all radar rules for automatic feed detection"@,
        ToolName::GetRadarRule => "Get a specific radar rule by name"@,
        ToolName::GetCategories =>
            "List known RSSHub categories (informational; use get_category for details)"@,
        ToolName::GetCategory => "Get feeds for a specific category"@,
        ToolName::GetFeed => "Fetch actual RSS feed content from a RSSHub path"@,
        ToolName::SearchRoutes =>
            "Search routes by keyword across all namespaces or within a specific namespace"@,
        ToolName::GetRouteDetail =>
            "Get detailed information for a specific route within a namespace"@,
        ToolName::SuggestRouteKeys =>
            "Suggest closest route keys within a namespace for a partial path"@,
    }
}

/// The arguments that a tool accepts, in the order of its schema.
pub open spec fn arguments_of(tool: ToolName) -> Seq<ArgumentModel> {
    match tool {
        ToolName::GetAllNamespaces => seq![format_argument()],
        ToolName::GetNamespace => seq![
            text_argument(
                "namespace"@,
                "The namespace to query (e.g., 'bilibili', 'github')"@,
            ),
            format_argument(),
        ],
        ToolName::SearchNamespaces => seq![
            text_argument(
                "query"@,
                "Optional search keyword to filter namespaces (e.g., 'social', 'news')"@,
            ),
        ],
        ToolName::GetRadarRules => seq![format_argument()],
        ToolName::GetRadarRule => seq![
            text_argument(
                "rule_name"@,
                "The domain/rule name to query (e.g., 'github.com')"@,
            ),
            text_argument(
                "domain"@,
                "Alias of rule_name; the domain to query (e.g., 'github.com')"@,
            ),
            format_argument(),
        ],
        ToolName::GetCategories => Seq::empty(),
        ToolName::GetCategory => seq![
            text_argument(
                "category"@,
                "The category name (e.g., 'tech', 'news', 'programming')"@,
            ),
            format_argument(),
        ],
        ToolName::GetFeed => seq![
            text_argument(
                "path"@,
                "The RSSHub path (e.g., 'bilibili/user/video/2267573', 'github/issue/DIYgod/RSSHub')"@,
            ),
            format_argument(),
        ],
        ToolName::SearchRoutes => seq![
            text_argument(
                "query"@,
                "Search keyword (matches key, name, description, example)"@,
            ),
            text_argument("namespace"@, "Optional namespace to restrict search"@),
            limit_argument(200, "Max results to return (default 20)"@),
            format_argument(),
        ],
        ToolName::GetRouteDetail => seq![
            text_argument("namespace"@, "The namespace (e.g., 'bilibili')"@),
            text_argument(
                "route_key"@,
                "The route key as in namespace map (e.g., '/live/room/:roomID')"@,
            ),
            format_argument(),
        ],
        ToolName::SuggestRouteKeys => seq![
            text_argument("namespace"@, "The namespace (e.g., 'bilibili')"@),
            text_argument("partial"@, "Partial route key to match (e.g., 'live/room')"@),
            limit_argument(50, "Max suggestions to return (default 10)"@),
        ],
    }
}

/// The names of the arguments that the schema of a tool marks as required.
pub open spec fn required_of(tool: ToolName) -> Seq<Seq<char>> {
    match tool {
        ToolName::GetNamespace => seq!["namespace"@],
        ToolName::GetCategory => seq!["category"@],
        ToolName::GetFeed => seq!["path"@],
        ToolName::SearchRoutes => seq!["query"@],
        ToolName::GetRouteDetail => seq!["namespace"@, "route_key"@],
        ToolName::SuggestRouteKeys => seq!["namespace"@, "partial"@],
        _ => Seq::empty(),
    }
}

/// The catalog entry of a tool.
pub open spec fn tool_model(tool: ToolName) -> ToolModel {
    ToolModel {
        name: name_of(tool),
        description: description_of(tool),
        arguments: arguments_of(tool),
        required: required_of(tool),
    }
}

fn text_arg(name: &str, description: &str) -> (r: ArgumentSchema)
    ensures
        r@ == text_argument(name@, description@),
{
    let r = ArgumentSchema {
        name: String::from_str(name),
        kind: ArgumentKind::Text,
        description: String::from_str(description),
        choices: Vec::new(),
        minimum: None,
        maximum: None,
    };
    assert(r@.choices =~= Seq::empty());
    r
}

fn format_arg() -> (r: ArgumentSchema)
    ensures
        r@ == format_argument(),
{
    let mut choices: Vec<String> = Vec::new();
    choices.push(String::from_str("text"));
    choices.push(String::from_str("json"));
    let r = ArgumentSchema {
        name: String::from_str("format"),
        kind: ArgumentKind::Text,
        description: String::from_str("Output format (default text)"),
        choices,
        minimum: None,
        maximum: None,
    };
    assert(r@.choices =~= seq!["text"@, "json"@]);
    r
}

fn limit_arg(maximum: u64, description: &str) -> (r: ArgumentSchema)
    ensures
        r@ == limit_argument(maximum, description@),
{
    let r = ArgumentSchema {
        name: String::from_str("limit"),
        kind: ArgumentKind::Integer,
        description: String::from_str(description),
        choices: Vec::new(),
        minimum: Some(1),
        maximum: Some(maximum),
    };
    assert(r@.choices =~= Seq::empty());
    r
}

/// The views of a list of argument schemas.
pub open spec fn argument_models(v: Seq<ArgumentSchema>) -> Seq<ArgumentModel> {
    v.map_values(|a: ArgumentSchema| a@)
}

fn one(a: ArgumentSchema) -> (r: Vec<ArgumentSchema>)
    ensures
        argument_models(r@) == seq![a@],
{
    let mut v: Vec<ArgumentSchema> = Vec::new();
    v.push(a);
    assert(argument_models(v@) =~= seq![a@]);
    v
}

fn with(v: Vec<ArgumentSchema>, a: ArgumentSchema) -> (r: Vec<ArgumentSchema>)
    ensures
        argument_models(r@) == argument_models(v@).push(a@),
{
    let ghost before = v@;
    let mut v = v;
    v.push(a);
    assert(argument_models(v@) =~= argument_models(before).push(a@));
    v
}


fn names(a: &str) -> (r: Vec<String>)
    ensures
        r@.map_values(|s: String| s@) == seq![a@],
{
    let mut v: Vec<String> = Vec::new();
    v.push(String::from_str(a));
    assert(v@.map_values(|s: String| s@) =~= seq![a@]);
    v
}

fn names2(a: &str, b: &str) -> (r: Vec<String>)
    ensures
        r@.map_values(|s: String| s@) == seq![a@, b@],
{
    let mut v: Vec<String> = Vec::new();
    v.push(String::from_str(a));
    v.push(String::from_str(b));
    assert(v@.map_values(|s: String| s@) =~= seq![a@, b@]);
    v
}

fn no_names() -> (r: Vec<String>)
    ensures
        r@.map_values(|s: String| s@) == Seq::<Seq<char>>::empty(),
{
    let v: Vec<String> = Vec::new();
    assert(v@.map_values(|s: String| s@) =~= Seq::<Seq<char>>::empty());
    v
}

fn no_arguments() -> (r: Vec<ArgumentSchema>)
    ensures
        argument_models(r@) == Seq::<ArgumentModel>::empty(),
{
    let v: Vec<ArgumentSchema> = Vec::new();
    assert(argument_models(v@) =~= Seq::<ArgumentModel>::empty());
    v
}

fn arguments(tool: ToolName) -> (r: Vec<ArgumentSchema>)
    ensures
        argument_models(r@) == arguments_of(tool),
{
    let r = match tool {
        ToolName::GetAllNamespaces => one(format_arg()),
        ToolName::GetNamespace => with(
            one(
                text_arg("namespace", "The namespace to query (e.g., 'bilibili', 'github')"),
            ),
            format_arg(),
        ),
        ToolName::SearchNamespaces => one(
            text_arg(
                "query",
                "Optional search keyword to filter namespaces (e.g., 'social', 'news')",
            ),
        ),
        ToolName::GetRadarRules => one(format_arg()),
        ToolName::GetRadarRule => with(
            with(
                one(
                    text_arg(
                        "rule_name",
                        "The domain/rule name to query (e.g., 'github.com')",
                    ),
                ),
                text_arg(
                    "domain",
                    "Alias of rule_name; the domain to query (e.g., 'github.com')",
                ),
            ),
            format_arg(),
        ),
        ToolName::GetCategories => no_arguments(),
        ToolName::GetCategory => with(
            one(
                text_arg(
                    "category",
                    "The category name (e.g., 'tech', 'news', 'programming')",
                ),
            ),
            format_arg(),
        ),
        ToolName::GetFeed => with(
            one(
                text_arg(
                    "path",
                    "The RSSHub path (e.g., 'bilibili/user/video/2267573', 'github/issue/DIYgod/RSSHub')",
                ),
            ),
            format_arg(),
        ),
        ToolName::SearchRoutes => with(
            with(
                with(
                    one(
                        text_arg(
                            "query",
                            "Search keyword (matches key, name, description, example)",
                        ),
                    ),
                    text_arg("namespace", "Optional namespace to restrict search"),
                ),
                limit_arg(200, "Max results to return (default 20)"),
            ),
            format_arg(),
        ),
        ToolName::GetRouteDetail => with(
            with(
                one(text_arg("namespace", "The namespace (e.g., 'bilibili')")),
                text_arg(
                    "route_key",
                    "The route key as in namespace map (e.g., '/live/room/:roomID')",
                ),
            ),
            format_arg(),
        ),
        ToolName::SuggestRouteKeys => with(
            with(
                one(text_arg("namespace", "The namespace (e.g., 'bilibili')")),
                text_arg("partial", "Partial route key to match (e.g., 'live/room')"),
            ),
            limit_arg(50, "Max suggestions to return (default 10)"),
        ),
    };
    assert(argument_models(r@) =~= arguments_of(tool));
    r
}

fn required(tool: ToolName) -> (r: Vec<String>)
    ensures
        r@.map_values(|s: String| s@) == required_of(tool),
{
    match tool {
        ToolName::GetNamespace => names("namespace"),
        ToolName::GetCategory => names("category"),
        ToolName::GetFeed => names("path"),
        ToolName::SearchRoutes => names("query"),
        ToolName::GetRouteDetail => names2("namespace", "route_key"),
        ToolName::SuggestRouteKeys => names2("namespace", "partial"),
        _ => no_names(),
    }
}

fn description(tool: ToolName) -> (r: &'static str)
    ensures
        r@ == description_of(tool),
{
    match tool {
        ToolName::GetAllNamespaces => "Get all available namespaces in RSSHub",
        ToolName::GetNamespace => "Get routes for a specific namespace",
        ToolName::SearchNamespaces =>
            "Search for namespaces by keyword or list all available namespaces",
        ToolName::GetRadarRules => "Get all radar rules for automatic feed detection",
        ToolName::GetRadarRule => "Get a specific radar rule by name",
        ToolName::GetCategories =>
            "List known RSSHub categories (informational; use get_category for details)",
        ToolName::GetCategory => "Get feeds for a specific category",
        ToolName::GetFeed => "Fetch actual RSS feed content from a RSSHub path",
        ToolName::SearchRoutes =>
            "Search routes by keyword across all namespaces or within a specific namespace",
        ToolName::GetRouteDetail =>
            "Get detailed information for a specific route within a namespace",
        ToolName::SuggestRouteKeys =>
            "Suggest closest route keys within a namespace for a partial path",
    }
}

impl ToolName {
    /// The catalog entry of the tool: its name, its description and the
    /// schema of its arguments.
    pub fn describe(self) -> (r: ToolDescriptor)
        ensures
            r@ == tool_model(self),
    {
        ToolDescriptor {
            name: String::from_str(self.as_str()),
            description: String::from_str(description(self)),
            arguments: arguments(self),
            required: required(self),
        }
    }

    /// The tool at position `i` of the catalog.
    pub fn at(i: usize) -> (r: ToolName)
        requires
            i < TOOL_COUNT,
        ensures
            r == tool_at(i as int),
    {
        if i == 0 {
            ToolName::GetAllNamespaces
        } else if i == 1 {
            ToolName::GetNamespace
        } else if i == 2 {
            ToolName::SearchNamespaces
        } else if i == 3 {
            ToolName::GetRadarRules
        } else if i == 4 {
            ToolName::GetRadarRule
        } else if i == 5 {
            ToolName::GetCategories
        } else if i == 6 {
            ToolName::GetCategory
        } else if i == 7 {
            ToolName::GetFeed
        } else if i == 8 {
            ToolName::SearchRoutes
        } else if i == 9 {
            ToolName::GetRouteDetail
        } else {
            ToolName::SuggestRouteKeys
        }
    }
}

/// Every tool stands at one position of the catalog.
pub proof fn lemma_every_tool_listed(tool: ToolName)
    ensures
        exists|i: int| 0 <= i < TOOL_COUNT && tool_at(i) == tool,
{
    match tool {
        ToolName::GetAllNamespaces => assert(tool_at(0) == tool),
        ToolName::GetNamespace => assert(tool_at(1) == tool),
        ToolName::SearchNamespaces => assert(tool_at(2) == tool),
        ToolName::GetRadarRules => assert(tool_at(3) == tool),
        ToolName::GetRadarRule => assert(tool_at(4) == tool),
        ToolName::GetCategories => assert(tool_at(5) == tool),
        ToolName::GetCategory => assert(tool_at(6) == tool),
        ToolName::GetFeed => assert(tool_at(7) == tool),
        ToolName::SearchRoutes => assert(tool_at(8) == tool),
        ToolName::GetRouteDetail => assert(tool_at(9) == tool),
        ToolName::SuggestRouteKeys => assert(tool_at(10) == tool),
    }
}

/// The catalog of tools: one entry for each tool, in the order of
/// `tool_at`. It is the same on every call.
pub fn list_tools() -> (r: Vec<ToolDescriptor>)
    ensures
        r@.len() == TOOL_COUNT,
        forall|i: int| 0 <= i < TOOL_COUNT ==> (#[trigger] r@[i])@ == tool_model(tool_at(i)),
{
    let mut tools: Vec<ToolDescriptor> = Vec::new();
    let mut i: usize = 0;
    while i < TOOL_COUNT
        invariant
            i <= TOOL_COUNT,
            tools@.len() == i,
            forall|j: int| 0 <= j < i ==> (#[trigger] tools@[j])@ == tool_model(tool_at(j)),
        decreases TOOL_COUNT - i,
    {
        tools.push(ToolName::at(i).describe());
        i += 1;
    }
    tools
}

} // verus!
