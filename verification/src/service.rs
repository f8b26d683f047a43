//! The dispatcher: what each tool does with the catalog, and the answer
//! that goes back.
//!
//! A call is validated by `crate::dispatch`. `RSSHubService::begin` then
//! either answers it at once or names the request whose result it needs;
//! with that result, `RSSHubService::finish` answers it. An answer is a
//! text, or a value of the catalog together with the form in which the
//! caller is to write it out.

use vstd::prelude::*;
use vstd::string::*;
use crate::client::{Bulk, BulkModel, Endpoint, Fetch, FetchModel, RsshubApiClient,
    RsshubClientConfig, fetch_of, without_leading_separator};
use crate::dispatch::{
    McpError, OutputFormat, ToolCall, arguments_in, decoded, outcome_view, referent,
};
use crate::tools::{TOOL_COUNT, ToolDescriptor, tool_at, tool_model};
use crate::feed::{FeedResponse, summarize, summary_text};
use crate::model::{
    CategoryItems, NamespaceResp, RouteDetails, RoutesMap, RulesInfo, RulesResp, keys_of,
    position_of,
};
use crate::search::{
    RouteHit, RouteHitModel, first_n, hit_models, hits_in_catalog, hits_in_namespace, hits_text,
    namespaces_text, render_hits, render_suggestions, search_all_routes,
    search_namespace_routes, search_namespaces, suggest_route_keys, suggested, suggestions_text,
};
use crate::text::{lowercase, optional_str, optional_text};

verus! {

/// A value of the catalog that an answer shows.
#[derive(Debug)]
pub enum Payload<'a> {
    Namespaces(&'a NamespaceResp),
    Namespace(&'a RoutesMap),
    Route(&'a RouteDetails),
    RadarRules(&'a RulesResp),
    RadarRule(&'a RulesInfo),
    Category(&'a CategoryItems),
    Feed(&'a FeedResponse),
    Hits(Vec<RouteHit>),
}

/// A shown value, as a mathematical value.
pub enum PayloadModel {
    Namespaces(NamespaceResp),
    Namespace(RoutesMap),
    Route(RouteDetails),
    RadarRules(RulesResp),
    RadarRule(RulesInfo),
    Category(CategoryItems),
    Feed(FeedResponse),
    Hits(Seq<RouteHitModel>),
}

impl<'a> View for Payload<'a> {
    type V = PayloadModel;

    open spec fn view(&self) -> PayloadModel {
        match *self {
            Payload::Namespaces(v) => PayloadModel::Namespaces(*v),
            Payload::Namespace(v) => PayloadModel::Namespace(*v),
            Payload::Route(v) => PayloadModel::Route(*v),
            Payload::RadarRules(v) => PayloadModel::RadarRules(*v),
            Payload::RadarRule(v) => PayloadModel::RadarRule(*v),
            Payload::Category(v) => PayloadModel::Category(*v),
            Payload::Feed(v) => PayloadModel::Feed(*v),
            Payload::Hits(v) => PayloadModel::Hits(hit_models(v@)),
        }
    }
}

/// The answer to a call.
#[derive(Debug)]
pub enum Rendering<'a> {
    /// This text.
    Text(String),
    /// The value, written as JSON.
    Json(Payload<'a>),
    /// The value, written in the form that shows its structure for
    /// debugging.
    Debug(Payload<'a>),
}

/// An answer, as a mathematical value.
pub enum RenderingModel {
    Text(Seq<char>),
    Json(PayloadModel),
    Debug(PayloadModel),
}

impl<'a> View for Rendering<'a> {
    type V = RenderingModel;

    open spec fn view(&self) -> RenderingModel {
        match *self {
            Rendering::Text(t) => RenderingModel::Text(t@),
            Rendering::Json(p) => RenderingModel::Json(p@),
            Rendering::Debug(p) => RenderingModel::Debug(p@),
        }
    }
}

/// A value in the form that `format` asks for.
pub open spec fn shown(payload: PayloadModel, format: OutputFormat) -> RenderingModel {
    match format {
        OutputFormat::Json => RenderingModel::Json(payload),
        OutputFormat::Text => RenderingModel::Debug(payload),
    }
}

fn show<'a>(payload: Payload<'a>, format: OutputFormat) -> (r: Rendering<'a>)
    ensures
        r@ == shown(payload@, format),
{
    match format {
        OutputFormat::Json => Rendering::Json(payload),
        OutputFormat::Text => Rendering::Debug(payload),
    }
}

/// How many hits a search for routes gives where the call sets no limit.
pub const DEFAULT_SEARCH_LIMIT: usize = 20;

/// How many keys a suggestion gives where the call sets no limit.
pub const DEFAULT_SUGGEST_LIMIT: usize = 10;

/// The limit that a call sets, or `default` where it sets none; a limit
/// beyond what the machine can count is the largest it can count.
pub open spec fn limit_of(limit: Option<u64>, default: usize) -> usize {
    match limit {
        Some(n) => if n > usize::MAX {
            usize::MAX
        } else {
            n as usize
        },
        None => default,
    }
}

fn limit_or(limit: Option<u64>, default: usize) -> (r: usize)
    ensures
        r == limit_of(limit, default),
{
    match limit {
        Some(n) => if n > usize::MAX as u64 {
            usize::MAX
        } else {
            n as usize
        },
        None => default,
    }
}

/// The list of the categories that are known.
pub open spec fn categories_text() -> Seq<char> {
    "Available categories: blog, news, programming, social-media, finance, entertainment, government, study, multimedia, picture, travel, shopping, game, reading, university, forecast, bbs, live, anime, tech\n\nUse 'get_category' tool with a specific category name to get feeds for that category."@
}

/// The note that a namespace has no routes.
pub open spec fn no_routes_text(namespace: Seq<char>) -> Seq<char> {
    "Namespace '"@ + namespace + "' has no routes."@
}

/// The note that a namespace has no route under a key.
pub open spec fn no_route_text(namespace: Seq<char>, route_key: Seq<char>) -> Seq<char> {
    "Route '"@ + route_key + "' not found in namespace '"@ + namespace + "'."@
}

fn no_routes(namespace: &str) -> (r: String)
    ensures
        r@ == no_routes_text(namespace@),
{
    let mut out = String::from_str("Namespace '");
    out.append(namespace);
    out.append("' has no routes.");
    out
}

/// The answer to a search for routes in the hits that it found.
pub open spec fn search_answer(
    hits: Seq<RouteHitModel>,
    query: Seq<char>,
    limit: usize,
    format: OutputFormat,
) -> RenderingModel {
    match format {
        OutputFormat::Json => RenderingModel::Json(PayloadModel::Hits(hits)),
        OutputFormat::Text => RenderingModel::Text(hits_text(hits, query, limit as nat)),
    }
}

fn answer_search<'a>(hits: Vec<RouteHit>, query: &str, limit: usize, format: OutputFormat) -> (r:
    Rendering<'a>)
    ensures
        r@ == search_answer(hit_models(hits@), query@, limit, format),
{
    match format {
        OutputFormat::Json => Rendering::Json(Payload::Hits(hits)),
        OutputFormat::Text => Rendering::Text(render_hits(&hits, query, limit)),
    }
}

/// The answer with the detail of a route.
pub open spec fn route_detail_answer(
    namespace: Seq<char>,
    map: RoutesMap,
    route_key: Seq<char>,
    format: OutputFormat,
) -> RenderingModel {
    match map.routes {
        None => RenderingModel::Text(no_routes_text(namespace)),
        Some(routes) => match position_of(routes@, route_key) {
            Some(i) => shown(PayloadModel::Route(routes@[i].1), format),
            None => RenderingModel::Text(no_route_text(namespace, route_key)),
        },
    }
}

/// The answer with the suggested keys of a namespace.
pub open spec fn suggestion_answer(
    namespace: Seq<char>,
    map: RoutesMap,
    partial: Seq<char>,
    limit: usize,
) -> RenderingModel {
    match map.routes {
        None => RenderingModel::Text(no_routes_text(namespace)),
        Some(routes) => RenderingModel::Text(
            suggestions_text(suggested(routes@, partial, limit as nat)),
        ),
    }
}

/// The answer with a feed: the feed itself as JSON, or its summary.
pub open spec fn feed_answer(feed: FeedResponse, format: OutputFormat) -> RenderingModel {
    match format {
        OutputFormat::Json => RenderingModel::Json(PayloadModel::Feed(feed)),
        OutputFormat::Text => RenderingModel::Text(summary_text(feed@)),
    }
}

/// All namespaces, in the form asked for.
pub fn handle_get_all_namespaces<'a>(all: &'a NamespaceResp, format: OutputFormat) -> (r:
    Rendering<'a>)
    ensures
        r@ == shown(PayloadModel::Namespaces(*all), format),
{
    show(Payload::Namespaces(all), format)
}

/// The routes of a namespace, in the form asked for.
pub fn handle_get_namespace<'a>(routes: &'a RoutesMap, format: OutputFormat) -> (r: Rendering<'a>)
    ensures
        r@ == shown(PayloadModel::Namespace(*routes), format),
{
    show(Payload::Namespace(routes), format)
}

/// The namespaces whose name matches the query, or all of them.
pub fn handle_search_namespaces<'a>(all: &NamespaceResp, query: Option<&str>) -> (r: Rendering<'a>)
    ensures
        r@ == RenderingModel::Text(namespaces_text(keys_of(all@), optional_str(query))),
{
    Rendering::Text(search_namespaces(all, query))
}

/// The discovery rules of all domains, in the form asked for.
pub fn handle_get_radar_rules<'a>(rules: &'a RulesResp, format: OutputFormat) -> (r: Rendering<'a>)
    ensures
        r@ == shown(PayloadModel::RadarRules(*rules), format),
{
    show(Payload::RadarRules(rules), format)
}

/// The discovery rules of one domain, in the form asked for.
pub fn handle_get_radar_rule<'a>(rule: &'a RulesInfo, format: OutputFormat) -> (r: Rendering<'a>)
    ensures
        r@ == shown(PayloadModel::RadarRule(*rule), format),
{
    show(Payload::RadarRule(rule), format)
}

/// The list of the categories that are known.
pub fn handle_get_categories<'a>() -> (r: Rendering<'a>)
    ensures
        r@ == RenderingModel::Text(categories_text()),
{
    Rendering::Text(
        String::from_str(
            "Available categories: blog, news, programming, social-media, finance, entertainment, government, study, multimedia, picture, travel, shopping, game, reading, university, forecast, bbs, live, anime, tech\n\nUse 'get_category' tool with a specific category name to get feeds for that category.",
        ),
    )
}

/// The services of a category, in the form asked for.
pub fn handle_get_category<'a>(items: &'a CategoryItems, format: OutputFormat) -> (r: Rendering<
    'a,
>)
    ensures
        r@ == shown(PayloadModel::Category(*items), format),
{
    show(Payload::Category(items), format)
}

/// A feed: as JSON, or summarised in words.
pub fn handle_get_feed<'a>(feed: &'a FeedResponse, format: OutputFormat) -> (r: Rendering<'a>)
    ensures
        r@ == feed_answer(*feed, format),
{
    match format {
        OutputFormat::Json => Rendering::Json(Payload::Feed(feed)),
        OutputFormat::Text => Rendering::Text(summarize(feed)),
    }
}

/// The routes of one namespace that match `query`: the first `limit` of
/// them, 20 where no limit is set.
pub fn handle_search_routes<'a>(
    namespace: &str,
    routes: &RoutesMap,
    query: &str,
    limit: Option<u64>,
    format: OutputFormat,
) -> (r: Rendering<'a>)
    ensures
        r@ == search_answer(
            first_n(
                hits_in_namespace(namespace@, *routes, lowercase(query@)),
                limit_of(limit, DEFAULT_SEARCH_LIMIT) as nat,
            ),
            query@,
            limit_of(limit, DEFAULT_SEARCH_LIMIT),
            format,
        ),
{
    let limit = limit_or(limit, DEFAULT_SEARCH_LIMIT);
    let hits = search_namespace_routes(namespace, routes, query, limit);
    answer_search(hits, query, limit, format)
}

/// The routes of the whole catalog that match `query`: the first `limit`
/// of them in catalog order, 20 where no limit is set.
pub fn handle_search_all_routes<'a>(
    all: &NamespaceResp,
    query: &str,
    limit: Option<u64>,
    format: OutputFormat,
) -> (r: Rendering<'a>)
    ensures
        r@ == search_answer(
            first_n(
                hits_in_catalog(all@, lowercase(query@)),
                limit_of(limit, DEFAULT_SEARCH_LIMIT) as nat,
            ),
            query@,
            limit_of(limit, DEFAULT_SEARCH_LIMIT),
            format,
        ),
{
    let limit = limit_or(limit, DEFAULT_SEARCH_LIMIT);
    let hits = search_all_routes(all, query, limit);
    answer_search(hits, query, limit, format)
}

/// The detail of the route under `route_key`, or a note that the namespace
/// has no routes or none under that key.
pub fn handle_get_route_detail<'a>(
    namespace: &str,
    routes: &'a RoutesMap,
    route_key: &str,
    format: OutputFormat,
) -> (r: Rendering<'a>)
    ensures
        r@ == route_detail_answer(namespace@, *routes, route_key@, format),
{
    match &routes.routes {
        None => Rendering::Text(no_routes(namespace)),
        Some(list) => match list.get(route_key) {
            Some(details) => show(Payload::Route(details), format),
            None => {
                let mut out = String::from_str("Route '");
                out.append(route_key);
                out.append("' not found in namespace '");
                out.append(namespace);
                out.append("'.");
                Rendering::Text(out)
            },
        },
    }
}

/// The route keys of a namespace closest to `partial`: the first `limit`
/// of them, 10 where no limit is set; or a note that the namespace has no
/// routes.
pub fn handle_suggest_route_keys<'a>(
    namespace: &str,
    routes: &RoutesMap,
    partial: &str,
    limit: Option<u64>,
) -> (r: Rendering<'a>)
    ensures
        r@ == suggestion_answer(
            namespace@,
            *routes,
            partial@,
            limit_of(limit, DEFAULT_SUGGEST_LIMIT),
        ),
{
    match &routes.routes {
        None => Rendering::Text(no_routes(namespace)),
        Some(list) => {
            let limit = limit_or(limit, DEFAULT_SUGGEST_LIMIT);
            let keys = suggest_route_keys(list, partial, limit);
            Rendering::Text(render_suggestions(&keys))
        },
    }
}

/// What goes back to the caller of a tool.
#[derive(Debug)]
pub struct ToolCallResponse {
    pub content: String,
    pub is_error: bool,
}

/// Wraps the outcome of an operation for the caller: the text of a
/// success as it is, the message of a failure behind `Error: ` and with the
/// error flag set. A failure of an operation thus never fails the call.
pub fn respond(outcome: Result<String, String>) -> (r: ToolCallResponse)
    ensures
        match outcome {
            Ok(text) => r.content@ == text@ && !r.is_error,
            Err(message) => r.content@ == "Error: "@ + message@ && r.is_error,
        },
{
    match outcome {
        Ok(text) => ToolCallResponse { content: text, is_error: false },
        Err(message) => {
            let mut content = String::from_str("Error: ");
            content.append(message.as_str());
            ToolCallResponse { content, is_error: true }
        },
    }
}


/// What a request brought, for the operations that are not cached.
#[derive(Debug)]
pub enum Fetched {
    Namespace(RoutesMap),
    RadarRule(RulesInfo),
    Category(CategoryItems),
    Feed(FeedResponse),
}

/// What comes first for a call: its answer, or the request to make.
#[derive(Debug)]
pub enum Step<'a> {
    Answer(Rendering<'a>),
    Fetch(Fetch),
}

/// A first step, as a mathematical value.
pub enum StepModel {
    Answer(RenderingModel),
    Fetch(FetchModel),
}

impl<'a> View for Step<'a> {
    type V = StepModel;

    open spec fn view(&self) -> StepModel {
        match *self {
            Step::Answer(r) => StepModel::Answer(r@),
            Step::Fetch(f) => StepModel::Fetch(f@),
        }
    }
}

/// The endpoint whose reply answers a call; none for a call that is
/// answered from a cached listing or from nothing at all.
pub open spec fn live_endpoint(call: ToolCall) -> Option<Endpoint> {
    match call {
        ToolCall::GetNamespace { .. } => Some(Endpoint::Namespace),
        ToolCall::SearchRoutes { namespace: Some(_), .. } => Some(Endpoint::Namespace),
        ToolCall::GetRouteDetail { .. } => Some(Endpoint::Namespace),
        ToolCall::SuggestRouteKeys { .. } => Some(Endpoint::Namespace),
        ToolCall::GetRadarRule { .. } => Some(Endpoint::RadarRule),
        ToolCall::GetCategory { .. } => Some(Endpoint::Category),
        ToolCall::GetFeed { .. } => Some(Endpoint::Feed),
        _ => None,
    }
}

/// The endpoint from which a fetched value comes.
pub open spec fn endpoint_of(data: Fetched) -> Endpoint {
    match data {
        Fetched::Namespace(_) => Endpoint::Namespace,
        Fetched::RadarRule(_) => Endpoint::RadarRule,
        Fetched::Category(_) => Endpoint::Category,
        Fetched::Feed(_) => Endpoint::Feed,
    }
}

/// Whether `data` is what `call` waits for.
pub open spec fn fits(call: ToolCall, data: Fetched) -> bool {
    live_endpoint(call) == Some(endpoint_of(data))
}

/// The answer to a call from a listing of all namespaces, for the three
/// calls that work on it.
pub open spec fn answer_from_namespaces(call: ToolCall, all: NamespaceResp) -> RenderingModel {
    match call {
        ToolCall::GetAllNamespaces { format } => shown(PayloadModel::Namespaces(all), format),
        ToolCall::SearchNamespaces { query } => RenderingModel::Text(
            namespaces_text(keys_of(all@), optional_text(query)),
        ),
        ToolCall::SearchRoutes { query, limit, format, .. } => search_answer(
            first_n(
                hits_in_catalog(all@, lowercase(query@)),
                limit_of(limit, DEFAULT_SEARCH_LIMIT) as nat,
            ),
            query@,
            limit_of(limit, DEFAULT_SEARCH_LIMIT),
            format,
        ),
        _ => RenderingModel::Text(Seq::empty()),
    }
}

/// The answer to a call from what its request brought.
pub open spec fn answer_from(call: ToolCall, data: Fetched) -> RenderingModel {
    match (call, data) {
        (ToolCall::GetNamespace { format, .. }, Fetched::Namespace(map)) => shown(
            PayloadModel::Namespace(map),
            format,
        ),
        (ToolCall::SearchRoutes { query, namespace: Some(ns), limit, format }, Fetched::Namespace(map)) =>
            search_answer(
            first_n(
                hits_in_namespace(ns@, map, lowercase(query@)),
                limit_of(limit, DEFAULT_SEARCH_LIMIT) as nat,
            ),
            query@,
            limit_of(limit, DEFAULT_SEARCH_LIMIT),
            format,
        ),
        (ToolCall::GetRouteDetail { namespace, route_key, format }, Fetched::Namespace(map)) =>
            route_detail_answer(namespace@, map, route_key@, format),
        (ToolCall::SuggestRouteKeys { namespace, partial, limit }, Fetched::Namespace(map)) =>
            suggestion_answer(namespace@, map, partial@, limit_of(limit, DEFAULT_SUGGEST_LIMIT)),
        (ToolCall::GetRadarRule { format, .. }, Fetched::RadarRule(rule)) => shown(
            PayloadModel::RadarRule(rule),
            format,
        ),
        (ToolCall::GetCategory { format, .. }, Fetched::Category(items)) => shown(
            PayloadModel::Category(items),
            format,
        ),
        (ToolCall::GetFeed { format, .. }, Fetched::Feed(feed)) => feed_answer(feed, format),
        _ => RenderingModel::Text(Seq::empty()),
    }
}

/// The dispatcher of tool calls, with its client.
#[derive(Debug)]
pub struct RSSHubService {
    pub client: RsshubApiClient,
}

fn as_str_opt(s: &Option<String>) -> (r: Option<&str>)
    ensures
        optional_str(r) == optional_text(*s),
{
    match s {
        Some(t) => Some(t.as_str()),
        None => None,
    }
}

impl Fetched {
    /// Whether this is what `call` waits for.
    pub fn answers(&self, call: &ToolCall) -> (r: bool)
        ensures
            r == fits(*call, *self),
    {
        match (call, self) {
            (ToolCall::GetNamespace { .. }, Fetched::Namespace(_)) => true,
            (ToolCall::SearchRoutes { namespace: Some(_), .. }, Fetched::Namespace(_)) => true,
            (ToolCall::GetRouteDetail { .. }, Fetched::Namespace(_)) => true,
            (ToolCall::SuggestRouteKeys { .. }, Fetched::Namespace(_)) => true,
            (ToolCall::GetRadarRule { .. }, Fetched::RadarRule(_)) => true,
            (ToolCall::GetCategory { .. }, Fetched::Category(_)) => true,
            (ToolCall::GetFeed { .. }, Fetched::Feed(_)) => true,
            _ => false,
        }
    }
}

impl RSSHubService {
    /// A dispatcher whose client has every setting at its default.
    pub fn new() -> (r: RSSHubService)
        ensures
            r.client.host@ == crate::client::default_host(),
            r.client.timeout == crate::client::DEFAULT_TIMEOUT,
            r.client.retries == crate::client::DEFAULT_RETRIES,
            r.client.retry_backoff_ms == crate::client::DEFAULT_RETRY_BACKOFF_MS,
            r.client.namespaces_ttl_secs == crate::client::DEFAULT_NAMESPACES_TTL_SECS,
            r.client.radar_rules_ttl_secs == crate::client::DEFAULT_RADAR_RULES_TTL_SECS,
            r.client.namespaces.entry.is_none(),
            r.client.radar_rules.entry.is_none(),
    {
        let config = RsshubClientConfig {
            host: None,
            timeout: None,
            retries: None,
            retry_backoff_ms: None,
            namespaces_ttl_secs: None,
            radar_rules_ttl_secs: None,
        };
        RSSHubService { client: RsshubApiClient::new(config) }
    }

    /// A dispatcher whose client is set up as `config` says.
    pub fn with_config(config: RsshubClientConfig) -> (r: RSSHubService)
        ensures
            r.client.host@ == match config.host {
                Some(h) => h@,
                None => crate::client::default_host(),
            },
            r.client.timeout == config.timeout.unwrap_or(crate::client::DEFAULT_TIMEOUT),
            r.client.retries == config.retries.unwrap_or(crate::client::DEFAULT_RETRIES),
            r.client.retry_backoff_ms == config.retry_backoff_ms.unwrap_or(
                crate::client::DEFAULT_RETRY_BACKOFF_MS,
            ),
            r.client.namespaces_ttl_secs == config.namespaces_ttl_secs.unwrap_or(
                crate::client::DEFAULT_NAMESPACES_TTL_SECS,
            ),
            r.client.radar_rules_ttl_secs == config.radar_rules_ttl_secs.unwrap_or(
                crate::client::DEFAULT_RADAR_RULES_TTL_SECS,
            ),
            r.client.namespaces.entry.is_none(),
            r.client.radar_rules.entry.is_none(),
    {
        RSSHubService { client: RsshubApiClient::new(config) }
    }

    /// The catalog of tools.
    pub fn list_tools(&self) -> (r: Vec<ToolDescriptor>)
        ensures
            r@.len() == TOOL_COUNT,
            forall|i: int| 0 <= i < TOOL_COUNT ==> (#[trigger] r@[i])@ == tool_model(tool_at(i)),
    {
        crate::tools::list_tools()
    }

    /// Validates a call: the operation it asks for, or the refusal of a
    /// name that no tool has or of a call that lacks a required argument.
    pub fn handle_tool_call(&self, name: &str, arguments: Option<&serde_json::Value>) -> (r: Result<
        ToolCall,
        McpError,
    >)
        ensures
            outcome_view(r) == decoded(name@, arguments_in(referent(arguments))),
    {
        crate::dispatch::handle_tool_call(name, arguments)
    }

    /// What comes first for `call` at `now`. A call that needs nothing is
    /// answered; one that works on a cached listing is answered while the
    /// listing is valid, else the listing is requested; every other call
    /// requests what it works on.
    pub open spec fn first_step(self, call: ToolCall, now: u64) -> StepModel {
        let host = self.client.host@;
        match call {
            ToolCall::GetCategories => StepModel::Answer(RenderingModel::Text(categories_text())),
            ToolCall::GetAllNamespaces { .. } => match self.client.namespaces_at(now) {
                BulkModel::Cached(all) => StepModel::Answer(answer_from_namespaces(call, all)),
                BulkModel::Fetch(f) => StepModel::Fetch(f),
            },
            ToolCall::SearchNamespaces { .. } => match self.client.namespaces_at(now) {
                BulkModel::Cached(all) => StepModel::Answer(answer_from_namespaces(call, all)),
                BulkModel::Fetch(f) => StepModel::Fetch(f),
            },
            ToolCall::SearchRoutes { namespace: None, .. } => match self.client.namespaces_at(now) {
                BulkModel::Cached(all) => StepModel::Answer(answer_from_namespaces(call, all)),
                BulkModel::Fetch(f) => StepModel::Fetch(f),
            },
            ToolCall::GetRadarRules { format } => match self.client.radar_rules_at(now) {
                BulkModel::Cached(rules) => StepModel::Answer(
                    shown(PayloadModel::RadarRules(rules), format),
                ),
                BulkModel::Fetch(f) => StepModel::Fetch(f),
            },
            ToolCall::GetNamespace { namespace, .. } => StepModel::Fetch(
                fetch_of(host, Endpoint::Namespace, namespace@),
            ),
            ToolCall::SearchRoutes { namespace: Some(namespace), .. } => StepModel::Fetch(
                fetch_of(host, Endpoint::Namespace, namespace@),
            ),
            ToolCall::GetRouteDetail { namespace, .. } => StepModel::Fetch(
                fetch_of(host, Endpoint::Namespace, namespace@),
            ),
            ToolCall::SuggestRouteKeys { namespace, .. } => StepModel::Fetch(
                fetch_of(host, Endpoint::Namespace, namespace@),
            ),
            ToolCall::GetRadarRule { rule_name, .. } => StepModel::Fetch(
                fetch_of(host, Endpoint::RadarRule, rule_name@),
            ),
            ToolCall::GetCategory { category, .. } => StepModel::Fetch(
                fetch_of(host, Endpoint::Category, category@),
            ),
            ToolCall::GetFeed { path, .. } => StepModel::Fetch(
                fetch_of(host, Endpoint::Feed, without_leading_separator(path@)),
            ),
        }
    }

    /// Starts on a validated call: answers it, or names the request whose
    /// result it needs. After the result of a request for a listing was
    /// stored in the client, the call is begun again; the result of any
    /// other request goes to `finish`.
    pub fn begin<'a>(&'a self, call: &'a ToolCall, now: u64) -> (r: Step<'a>)
        ensures
            r@ == self.first_step(*call, now),
    {
        match call {
            ToolCall::GetCategories => Step::Answer(handle_get_categories()),
            ToolCall::GetAllNamespaces { format } => match self.client.get_all_namespaces(now) {
                Bulk::Cached(all) => Step::Answer(handle_get_all_namespaces(all, *format)),
                Bulk::Fetch(f) => Step::Fetch(f),
            },
            ToolCall::SearchNamespaces { query } => match self.client.get_all_namespaces(now) {
                Bulk::Cached(all) => Step::Answer(
                    handle_search_namespaces(all, as_str_opt(query)),
                ),
                Bulk::Fetch(f) => Step::Fetch(f),
            },
            ToolCall::SearchRoutes { query, namespace: None, limit, format } => match self.client.get_all_namespaces(
                now,
            ) {
                Bulk::Cached(all) => Step::Answer(
                    handle_search_all_routes(all, query.as_str(), *limit, *format),
                ),
                Bulk::Fetch(f) => Step::Fetch(f),
            },
            ToolCall::GetRadarRules { format } => match self.client.get_all_radar_rules(now) {
                Bulk::Cached(rules) => Step::Answer(handle_get_radar_rules(rules, *format)),
                Bulk::Fetch(f) => Step::Fetch(f),
            },
            ToolCall::GetNamespace { namespace, .. } => Step::Fetch(
                self.client.get_namespace(namespace.as_str()),
            ),
            ToolCall::SearchRoutes { namespace: Some(namespace), .. } => Step::Fetch(
                self.client.get_namespace(namespace.as_str()),
            ),
            ToolCall::GetRouteDetail { namespace, .. } => Step::Fetch(
                self.client.get_namespace(namespace.as_str()),
            ),
            ToolCall::SuggestRouteKeys { namespace, .. } => Step::Fetch(
                self.client.get_namespace(namespace.as_str()),
            ),
            ToolCall::GetRadarRule { rule_name, .. } => Step::Fetch(
                self.client.get_radar_rule(rule_name.as_str()),
            ),
            ToolCall::GetCategory { category, .. } => Step::Fetch(
                self.client.get_category(category.as_str()),
            ),
            ToolCall::GetFeed { path, .. } => Step::Fetch(self.client.get_feed(path.as_str())),
        }
    }

    /// Answers a call with what its request brought.
    pub fn finish<'a>(&self, call: &'a ToolCall, data: &'a Fetched) -> (r: Rendering<'a>)
        requires
            fits(*call, *data),
        ensures
            r@ == answer_from(*call, *data),
    {
        match (call, data) {
            (ToolCall::GetNamespace { format, .. }, Fetched::Namespace(map)) => handle_get_namespace(
                map,
                *format,
            ),
            (
                ToolCall::SearchRoutes { query, namespace: Some(ns), limit, format },
                Fetched::Namespace(map),
            ) => handle_search_routes(ns.as_str(), map, query.as_str(), *limit, *format),
            (
                ToolCall::GetRouteDetail { namespace, route_key, format },
                Fetched::Namespace(map),
            ) => handle_get_route_detail(namespace.as_str(), map, route_key.as_str(), *format),
            (
                ToolCall::SuggestRouteKeys { namespace, partial, limit },
                Fetched::Namespace(map),
            ) => handle_suggest_route_keys(namespace.as_str(), map, partial.as_str(), *limit),
            (ToolCall::GetRadarRule { format, .. }, Fetched::RadarRule(rule)) => handle_get_radar_rule(
                rule,
                *format,
            ),
            (ToolCall::GetCategory { format, .. }, Fetched::Category(items)) => handle_get_category(
                items,
                *format,
            ),
            (ToolCall::GetFeed { format, .. }, Fetched::Feed(feed)) => handle_get_feed(
                feed,
                *format,
            ),
            _ => {
                // No other pair fits.
                assert(!fits(*call, *data));
                Rendering::Text(String::new())
            },
        }
    }
}

/// A call that asked for a listing is answered when it is begun again
/// right after the listing was stored: storing never leads to a second
/// request.
pub proof fn lemma_stored_listing_answers(
    service: RSSHubService,
    call: ToolCall,
    namespaces: NamespaceResp,
    rules: RulesResp,
    now: u64,
)
    requires
        live_endpoint(call).is_none(),
    ensures
        (RSSHubService {
            client: service.client.with_namespaces(namespaces, now).with_radar_rules(rules, now),
        }).first_step(call, now) is Answer,
{
}

} // verus!
