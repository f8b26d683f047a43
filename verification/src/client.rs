//! The client of the remote catalog: where each operation goes, what is
//! served from the cache, and how a reply is judged.
//!
//! The client does not talk to the network itself. An operation gives the
//! request to make, or, for the two listings that are cached, the cached
//! value while it is still good. The caller sends the request under the
//! rules of `crate::retry`, hands the status of the reply to `check_status`,
//! and stores a fresh listing with `store_namespaces` or
//! `store_radar_rules`.

use vstd::prelude::*;
use vstd::string::*;
use crate::cache::CacheSlot;
use crate::error::{ApiError, ApiErrorModel};
use crate::feed::{FeedResponse, feed_of, readable_channel};
use crate::model::{NamespaceResp, RulesResp};
use crate::retry::RetryPolicy;

verus! {

/// What the caller sets; what is left out gets its default.
#[derive(Debug, Clone, Default)]
pub struct RsshubClientConfig {
    pub host: Option<String>,
    /// The time allowed for one request, in seconds.
    pub timeout: Option<u64>,
    pub retries: Option<u32>,
    pub retry_backoff_ms: Option<u64>,
    pub namespaces_ttl_secs: Option<u64>,
    pub radar_rules_ttl_secs: Option<u64>,
}

pub const DEFAULT_TIMEOUT: u64 = 120;

pub const DEFAULT_RETRIES: u32 = 3;

pub const DEFAULT_RETRY_BACKOFF_MS: u64 = 150;

pub const DEFAULT_NAMESPACES_TTL_SECS: u64 = 300;

pub const DEFAULT_RADAR_RULES_TTL_SECS: u64 = 600;

/// The host that is asked where the configuration names none.
pub open spec fn default_host() -> Seq<char> {
    "https://rsshub.akjong.com"@
}

/// The places of the remote service.
#[derive(Debug, Clone, Copy, PartialEq, Eq, Structural)]
pub enum Endpoint {
    /// All namespaces.
    Namespaces,
    /// The routes of one namespace.
    Namespace,
    /// The discovery rules of all domains.
    RadarRules,
    /// The discovery rules of one domain.
    RadarRule,
    /// The services of one category.
    Category,
    /// A feed document.
    Feed,
}

/// A request to make.
#[derive(Debug)]
pub struct Fetch {
    pub endpoint: Endpoint,
    /// What is asked for at the endpoint: a namespace, a domain, a
    /// category, or the path of a feed without its leading separator;
    /// empty for the listings.
    pub subject: String,
    /// The address to get.
    pub url: String,
}

/// A request, as a mathematical value.
pub struct FetchModel {
    pub endpoint: Endpoint,
    pub subject: Seq<char>,
    pub url: Seq<char>,
}

impl View for Fetch {
    type V = FetchModel;

    open spec fn view(&self) -> FetchModel {
        FetchModel { endpoint: self.endpoint, subject: self.subject@, url: self.url@ }
    }
}

/// A path without its leading separator, where it has one. Only one is
/// taken off.
pub open spec fn without_leading_separator(path: Seq<char>) -> Seq<char> {
    if path.len() > 0 && path[0] == '/' {
        path.subrange(1, path.len() as int)
    } else {
        path
    }
}

/// The path below the host under which an endpoint answers.
pub open spec fn path_of(endpoint: Endpoint, subject: Seq<char>) -> Seq<char> {
    match endpoint {
        Endpoint::Namespaces => "/api/namespace"@,
        Endpoint::Namespace => "/api/namespace/"@ + subject,
        Endpoint::RadarRules => "/api/radar/rules"@,
        Endpoint::RadarRule => "/api/radar/rules/"@ + subject,
        Endpoint::Category => "/api/category/"@ + subject,
        Endpoint::Feed => "/"@ + subject,
    }
}

/// The request for `subject` at `endpoint` of `host`.
pub open spec fn fetch_of(host: Seq<char>, endpoint: Endpoint, subject: Seq<char>) -> FetchModel {
    FetchModel { endpoint, subject, url: host + path_of(endpoint, subject) }
}

/// The message for a reply whose status is no success. It names what was
/// asked for.
pub open spec fn status_message(endpoint: Endpoint, subject: Seq<char>) -> Seq<char> {
    match endpoint {
        Endpoint::Namespaces => "Failed to fetch namespaces"@,
        Endpoint::Namespace => "Failed to fetch namespace"@,
        Endpoint::RadarRules => "Failed to fetch radar rules"@,
        Endpoint::RadarRule => "Failed to fetch radar rule"@,
        Endpoint::Category => "Failed to fetch category"@,
        Endpoint::Feed => "Failed to fetch RSS feed from path: "@ + subject,
    }
}

/// Whether a status says that the request succeeded.
pub open spec fn is_success(status: u16) -> bool {
    200 <= status < 300
}

/// Judges the status of a reply: a success lets the body be read, anything
/// else is a failure that names what was asked for.
pub fn check_status(fetch: &Fetch, status: u16) -> (r: Result<(), ApiError>)
    ensures
        is_success(status) ==> r is Ok,
        !is_success(status) ==> (r matches Err(e) && e@ == ApiErrorModel::Status(
            status_message(fetch.endpoint, fetch.subject@),
        )),
{
    if 200 <= status && status < 300 {
        return Ok(());
    }
    let message = match fetch.endpoint {
        Endpoint::Namespaces => String::from_str("Failed to fetch namespaces"),
        Endpoint::Namespace => String::from_str("Failed to fetch namespace"),
        Endpoint::RadarRules => String::from_str("Failed to fetch radar rules"),
        Endpoint::RadarRule => String::from_str("Failed to fetch radar rule"),
        Endpoint::Category => String::from_str("Failed to fetch category"),
        Endpoint::Feed => {
            let mut m = String::from_str("Failed to fetch RSS feed from path: ");
            m.append(fetch.subject.as_str());
            m
        },
    };
    Err(ApiError::Status(message))
}

/// Takes what came of reading the body of a reply as the value that the
/// endpoint should give: the value, or the failure to read it with the
/// reader's message.
pub fn decoded<T>(outcome: Result<T, String>) -> (r: Result<T, ApiError>)
    ensures
        match outcome {
            Ok(value) => r == Ok::<T, ApiError>(value),
            Err(message) => r matches Err(e) && e@ == ApiErrorModel::Deserialization(message@),
        },
{
    match outcome {
        Ok(value) => Ok(value),
        Err(message) => Err(ApiError::Deserialization(message)),
    }
}

/// What a cached listing gives at a moment: the cached value, or the
/// request to make.
#[derive(Debug)]
pub enum Bulk<'a, T> {
    Cached(&'a T),
    Fetch(Fetch),
}

/// The answer of a cached listing, as a mathematical value.
pub enum BulkModel<T> {
    Cached(T),
    Fetch(FetchModel),
}

impl<'a, T> View for Bulk<'a, T> {
    type V = BulkModel<T>;

    open spec fn view(&self) -> BulkModel<T> {
        match *self {
            Bulk::Cached(v) => BulkModel::Cached(*v),
            Bulk::Fetch(f) => BulkModel::Fetch(f@),
        }
    }
}

/// The client of one host.
#[derive(Debug)]
pub struct RsshubApiClient {
    pub host: String,
    /// The time allowed for one request, in seconds.
    pub timeout: u64,
    pub retries: u32,
    pub retry_backoff_ms: u64,
    pub namespaces_ttl_secs: u64,
    pub radar_rules_ttl_secs: u64,
    pub namespaces: CacheSlot<NamespaceResp>,
    pub radar_rules: CacheSlot<RulesResp>,
}

fn strip_leading_separator(path: &str) -> (r: &str)
    ensures
        r@ == without_leading_separator(path@),
{
    let n = path.unicode_len();
    if n > 0 && path.get_char(0) == '/' {
        path.substring_char(1, n)
    } else {
        path
    }
}

impl RsshubApiClient {
    /// A client as `config` asks for it, with nothing cached.
    pub fn new(config: RsshubClientConfig) -> (r: RsshubApiClient)
        ensures
            r.host@ == match config.host {
                Some(h) => h@,
                None => default_host(),
            },
            r.timeout == config.timeout.unwrap_or(DEFAULT_TIMEOUT),
            r.retries == config.retries.unwrap_or(DEFAULT_RETRIES),
            r.retry_backoff_ms == config.retry_backoff_ms.unwrap_or(DEFAULT_RETRY_BACKOFF_MS),
            r.namespaces_ttl_secs == config.namespaces_ttl_secs.unwrap_or(
                DEFAULT_NAMESPACES_TTL_SECS,
            ),
            r.radar_rules_ttl_secs == config.radar_rules_ttl_secs.unwrap_or(
                DEFAULT_RADAR_RULES_TTL_SECS,
            ),
            r.namespaces.entry.is_none(),
            r.radar_rules.entry.is_none(),
    {
        let host = match config.host {
            Some(h) => h,
            None => String::from_str("https://rsshub.akjong.com"),
        };
        RsshubApiClient {
            host,
            timeout: config.timeout.unwrap_or(DEFAULT_TIMEOUT),
            retries: config.retries.unwrap_or(DEFAULT_RETRIES),
            retry_backoff_ms: config.retry_backoff_ms.unwrap_or(DEFAULT_RETRY_BACKOFF_MS),
            namespaces_ttl_secs: config.namespaces_ttl_secs.unwrap_or(DEFAULT_NAMESPACES_TTL_SECS),
            radar_rules_ttl_secs: config.radar_rules_ttl_secs.unwrap_or(
                DEFAULT_RADAR_RULES_TTL_SECS,
            ),
            namespaces: CacheSlot::new(),
            radar_rules: CacheSlot::new(),
        }
    }

    /// The rules under which the caller retries a request of this client.
    pub fn retry_policy(&self) -> (r: RetryPolicy)
        ensures
            r == (RetryPolicy { retries: self.retries, backoff_ms: self.retry_backoff_ms }),
    {
        RetryPolicy { retries: self.retries, backoff_ms: self.retry_backoff_ms }
    }

    fn fetch(&self, endpoint: Endpoint, subject: &str) -> (r: Fetch)
        ensures
            r@ == fetch_of(self.host@, endpoint, subject@),
    {
        let mut url = self.host.clone();
        match endpoint {
            Endpoint::Namespaces => {
                url.append("/api/namespace");
            },
            Endpoint::Namespace => {
                url.append("/api/namespace/");
                url.append(subject);
            },
            Endpoint::RadarRules => {
                url.append("/api/radar/rules");
            },
            Endpoint::RadarRule => {
                url.append("/api/radar/rules/");
                url.append(subject);
            },
            Endpoint::Category => {
                url.append("/api/category/");
                url.append(subject);
            },
            Endpoint::Feed => {
                url.append("/");
                url.append(subject);
            },
        }
        assert(url@ =~= self.host@ + path_of(endpoint, subject@));
        Fetch { endpoint, subject: String::from_str(subject), url }
    }

    /// What the listing of all namespaces gives at `now`.
    pub open spec fn namespaces_at(self, now: u64) -> BulkModel<NamespaceResp> {
        match self.namespaces.lookup(self.namespaces_ttl_secs, now) {
            Some(v) => BulkModel::Cached(v),
            None => BulkModel::Fetch(fetch_of(self.host@, Endpoint::Namespaces, Seq::empty())),
        }
    }

    /// What the listing of all discovery rules gives at `now`.
    pub open spec fn radar_rules_at(self, now: u64) -> BulkModel<RulesResp> {
        match self.radar_rules.lookup(self.radar_rules_ttl_secs, now) {
            Some(v) => BulkModel::Cached(v),
            None => BulkModel::Fetch(fetch_of(self.host@, Endpoint::RadarRules, Seq::empty())),
        }
    }

    /// All namespaces: the cached listing while it is valid, else the
    /// request for a fresh one.
    pub fn get_all_namespaces(&self, now: u64) -> (r: Bulk<'_, NamespaceResp>)
        ensures
            r@ == self.namespaces_at(now),
    {
        match self.namespaces.get(self.namespaces_ttl_secs, now) {
            Some(v) => Bulk::Cached(v),
            None => {
                proof {
                    reveal_strlit("");
                    assert(""@ =~= Seq::<char>::empty());
                }
                Bulk::Fetch(self.fetch(Endpoint::Namespaces, ""))
            },
        }
    }

    /// The routes of one namespace: always a request.
    pub fn get_namespace(&self, namespace: &str) -> (r: Fetch)
        ensures
            r@ == fetch_of(self.host@, Endpoint::Namespace, namespace@),
    {
        self.fetch(Endpoint::Namespace, namespace)
    }

    /// The discovery rules of all domains: the cached listing while it is
    /// valid, else the request for a fresh one.
    pub fn get_all_radar_rules(&self, now: u64) -> (r: Bulk<'_, RulesResp>)
        ensures
            r@ == self.radar_rules_at(now),
    {
        match self.radar_rules.get(self.radar_rules_ttl_secs, now) {
            Some(v) => Bulk::Cached(v),
            None => {
                proof {
                    reveal_strlit("");
                    assert(""@ =~= Seq::<char>::empty());
                }
                Bulk::Fetch(self.fetch(Endpoint::RadarRules, ""))
            },
        }
    }

    /// The discovery rules of one domain: always a request.
    pub fn get_radar_rule(&self, domain: &str) -> (r: Fetch)
        ensures
            r@ == fetch_of(self.host@, Endpoint::RadarRule, domain@),
    {
        self.fetch(Endpoint::RadarRule, domain)
    }

    /// The services of one category: always a request.
    pub fn get_category(&self, category: &str) -> (r: Fetch)
        ensures
            r@ == fetch_of(self.host@, Endpoint::Category, category@),
    {
        self.fetch(Endpoint::Category, category)
    }

    /// The feed at a path: always a request, for the path without its
    /// leading separator.
    pub fn get_feed(&self, path: &str) -> (r: Fetch)
        ensures
            r@ == fetch_of(self.host@, Endpoint::Feed, without_leading_separator(path@)),
    {
        self.fetch(Endpoint::Feed, strip_leading_separator(path))
    }

    /// The client after a fresh listing of namespaces was stored at `now`.
    pub open spec fn with_namespaces(self, value: NamespaceResp, now: u64) -> RsshubApiClient {
        RsshubApiClient { namespaces: CacheSlot::holding(value, now), ..self }
    }

    /// The client after a fresh listing of discovery rules was stored at
    /// `now`.
    pub open spec fn with_radar_rules(self, value: RulesResp, now: u64) -> RsshubApiClient {
        RsshubApiClient { radar_rules: CacheSlot::holding(value, now), ..self }
    }

    /// Stores a fresh listing of namespaces, fetched at `now`, in place of
    /// what was cached.
    pub fn store_namespaces(&mut self, value: NamespaceResp, now: u64)
        ensures
            *final(self) == old(self).with_namespaces(value, now),
    {
        self.namespaces.put(value, now);
    }

    /// Stores a fresh listing of discovery rules, fetched at `now`, in
    /// place of what was cached.
    pub fn store_radar_rules(&mut self, value: RulesResp, now: u64)
        ensures
            *final(self) == old(self).with_radar_rules(value, now),
    {
        self.radar_rules.put(value, now);
    }

    /// Reads a fetched document as a feed. This does not fail: a document
    /// that is no feed gives a feed without items that carries the document.
    pub fn parse_rss_content(&self, content: &str) -> (r: Result<FeedResponse, ApiError>)
        ensures
            r matches Ok(feed) && feed@ == feed_of(readable_channel(content@), content@),
    {
        Ok(crate::feed::parse_rss_content(content))
    }

    /// Judges the reply to a request for a feed: a status that is no
    /// success fails, anything else is read as a feed.
    pub fn read_feed(&self, fetch: &Fetch, status: u16, body: &str) -> (r: Result<
        FeedResponse,
        ApiError,
    >)
        ensures
            is_success(status) ==> (r matches Ok(feed) && feed@ == feed_of(
                readable_channel(body@),
                body@,
            )),
            !is_success(status) ==> (r matches Err(e) && e@ == ApiErrorModel::Status(
                status_message(fetch.endpoint, fetch.subject@),
            )),
    {
        match check_status(fetch, status) {
            Ok(_) => self.parse_rss_content(body),
            Err(e) => Err(e),
        }
    }
}

/// Within the time to live, a second call for all namespaces is served the
/// value that the first one stored, and asks for no request.
pub proof fn lemma_namespaces_served_from_cache(
    client: RsshubApiClient,
    value: NamespaceResp,
    fetched_at: u64,
    now: u64,
)
    requires
        fetched_at <= now,
        now - fetched_at <= client.namespaces_ttl_secs,
    ensures
        client.with_namespaces(value, fetched_at).namespaces_at(now) == BulkModel::Cached(value),
{
}

/// Once the time to live has passed, the next call for all namespaces asks
/// for one request, to the listing's address; and when its result is
/// stored, the calls after it are served from the cache again.
pub proof fn lemma_namespaces_refetched_after_ttl(
    client: RsshubApiClient,
    value: NamespaceResp,
    fetched_at: u64,
    now: u64,
    fresh: NamespaceResp,
    later: u64,
)
    requires
        fetched_at <= now,
        now - fetched_at > client.namespaces_ttl_secs,
        now <= later,
        later - now <= client.namespaces_ttl_secs,
    ensures
        client.with_namespaces(value, fetched_at).namespaces_at(now) == BulkModel::<
            NamespaceResp,
        >::Fetch(fetch_of(client.host@, Endpoint::Namespaces, Seq::empty())),
        client.with_namespaces(value, fetched_at).with_namespaces(fresh, now).namespaces_at(later)
            == BulkModel::Cached(fresh),
{
}

/// Within the time to live, a second call for all discovery rules is
/// served the value that the first one stored, and asks for no request.
pub proof fn lemma_radar_rules_served_from_cache(
    client: RsshubApiClient,
    value: RulesResp,
    fetched_at: u64,
    now: u64,
)
    requires
        fetched_at <= now,
        now - fetched_at <= client.radar_rules_ttl_secs,
    ensures
        client.with_radar_rules(value, fetched_at).radar_rules_at(now) == BulkModel::Cached(value),
{
}

/// Once the time to live has passed, the next call for all discovery rules
/// asks for one request; and when its result is stored, the calls after it
/// are served from the cache again.
pub proof fn lemma_radar_rules_refetched_after_ttl(
    client: RsshubApiClient,
    value: RulesResp,
    fetched_at: u64,
    now: u64,
    fresh: RulesResp,
    later: u64,
)
    requires
        fetched_at <= now,
        now - fetched_at > client.radar_rules_ttl_secs,
        now <= later,
        later - now <= client.radar_rules_ttl_secs,
    ensures
        client.with_radar_rules(value, fetched_at).radar_rules_at(now) == BulkModel::<
            RulesResp,
        >::Fetch(fetch_of(client.host@, Endpoint::RadarRules, Seq::empty())),
        client.with_radar_rules(value, fetched_at).with_radar_rules(fresh, now).radar_rules_at(
            later,
        ) == BulkModel::Cached(fresh),
{
}

} // verus!
