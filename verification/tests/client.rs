use rsshub_mcp::cache::{CacheEntry, CacheSlot};
use rsshub_mcp::client::{
    check_status, decoded, Bulk, Endpoint, RsshubApiClient, RsshubClientConfig,
};
use rsshub_mcp::error::ApiError;
use rsshub_mcp::model::{Keyed, NamespaceResp, RoutesMap, RulesInfo, RulesResp};
use rsshub_mcp::retry::{step, RetryAction, RetryEvent, RetryPolicy, RetryState};

fn client_at(host: &str) -> RsshubApiClient {
    RsshubApiClient::new(RsshubClientConfig {
        host: Some(host.to_string()),
        timeout: Some(60),
        ..Default::default()
    })
}

fn namespaces(names: &[&str]) -> NamespaceResp {
    Keyed::from_entries(names.iter().map(|n| (n.to_string(), RoutesMap { routes: None })).collect())
        .unwrap()
}

fn rules(names: &[&str]) -> RulesResp {
    Keyed::from_entries(
        names
            .iter()
            .map(|n| (n.to_string(), RulesInfo { name: n.to_string(), sections: Keyed::new() }))
            .collect(),
    )
    .unwrap()
}

fn names_of<T>(list: &Keyed<T>) -> Vec<&str> {
    list.entries().iter().map(|e| e.0.as_str()).collect()
}

#[test]
fn defaults_of_the_client() {
    let client = RsshubApiClient::new(RsshubClientConfig::default());
    assert_eq!(client.host, "https://rsshub.akjong.com");
    assert_eq!(client.timeout, 120);
    assert_eq!(client.retries, 3);
    assert_eq!(client.retry_backoff_ms, 150);
    assert_eq!(client.namespaces_ttl_secs, 300);
    assert_eq!(client.radar_rules_ttl_secs, 600);
    assert!(client.namespaces.entry.is_none());
    assert!(client.radar_rules.entry.is_none());
    assert_eq!(client.retry_policy(), RetryPolicy { retries: 3, backoff_ms: 150 });
}

#[test]
fn settings_of_the_client() {
    let client = RsshubApiClient::new(RsshubClientConfig {
        host: Some("http://127.0.0.1:1200".to_string()),
        timeout: Some(60),
        retries: Some(1),
        retry_backoff_ms: Some(10),
        namespaces_ttl_secs: Some(1),
        radar_rules_ttl_secs: Some(600),
    });
    assert_eq!(client.host, "http://127.0.0.1:1200");
    assert_eq!(client.timeout, 60);
    assert_eq!(client.retry_policy(), RetryPolicy { retries: 1, backoff_ms: 10 });
    assert_eq!(client.namespaces_ttl_secs, 1);
    assert_eq!(client.radar_rules_ttl_secs, 600);
}

#[test]
fn addresses_of_the_endpoints() {
    let client = client_at("http://h");
    match client.get_all_namespaces(0) {
        Bulk::Fetch(f) => {
            assert_eq!(f.url, "http://h/api/namespace");
            assert_eq!(f.endpoint, Endpoint::Namespaces);
            assert_eq!(f.subject, "");
        },
        other => panic!("unexpected: {:?}", other),
    }
    match client.get_all_radar_rules(0) {
        Bulk::Fetch(f) => {
            assert_eq!(f.url, "http://h/api/radar/rules");
            assert_eq!(f.endpoint, Endpoint::RadarRules);
        },
        other => panic!("unexpected: {:?}", other),
    }
    let f = client.get_namespace("zyw");
    assert_eq!((f.url.as_str(), f.endpoint, f.subject.as_str()), ("http://h/api/namespace/zyw", Endpoint::Namespace, "zyw"));
    let f = client.get_radar_rule("81.cn");
    assert_eq!((f.url.as_str(), f.endpoint), ("http://h/api/radar/rules/81.cn", Endpoint::RadarRule));
    let f = client.get_category("new-media");
    assert_eq!((f.url.as_str(), f.endpoint), ("http://h/api/category/new-media", Endpoint::Category));
}

#[test]
fn feed_path_loses_one_leading_separator() {
    let client = client_at("http://h");
    let f = client.get_feed("/bilibili/user/video/1");
    assert_eq!(f.url, "http://h/bilibili/user/video/1");
    assert_eq!(f.subject, "bilibili/user/video/1");
    assert_eq!(f.endpoint, Endpoint::Feed);
    assert_eq!(client.get_feed("bilibili/x").url, "http://h/bilibili/x");
    assert_eq!(client.get_feed("//double").url, "http://h//double");
    assert_eq!(client.get_feed("").url, "http://h/");
    assert_eq!(client.get_feed("/").url, "http://h/");
    assert_eq!(client.get_feed("/é/ü").subject, "é/ü");
}

#[test]
fn second_call_within_ttl_is_served_from_cache() {
    let mut client = client_at("http://h");
    assert!(matches!(client.get_all_namespaces(1000), Bulk::Fetch(_)));
    client.store_namespaces(namespaces(&["bilibili", "github"]), 1000);
    for now in [1000, 1001, 1299, 1300] {
        match client.get_all_namespaces(now) {
            Bulk::Cached(all) => assert_eq!(names_of(all), vec!["bilibili", "github"]),
            other => panic!("unexpected at {}: {:?}", now, other),
        }
    }
    // The other listing has its own slot.
    assert!(matches!(client.get_all_radar_rules(1000), Bulk::Fetch(_)));
}

#[test]
fn call_after_ttl_asks_for_one_request() {
    let mut client = RsshubApiClient::new(RsshubClientConfig {
        host: Some("http://h".to_string()),
        timeout: Some(60),
        retries: Some(1),
        retry_backoff_ms: Some(10),
        namespaces_ttl_secs: Some(1),
        radar_rules_ttl_secs: Some(600),
    });
    client.store_namespaces(namespaces(&["old"]), 50);
    assert!(matches!(client.get_all_namespaces(50), Bulk::Cached(_)));
    assert!(matches!(client.get_all_namespaces(51), Bulk::Cached(_)));
    match client.get_all_namespaces(52) {
        Bulk::Fetch(f) => assert_eq!(f.url, "http://h/api/namespace"),
        other => panic!("unexpected: {:?}", other),
    }
    client.store_namespaces(namespaces(&["new"]), 52);
    match client.get_all_namespaces(53) {
        Bulk::Cached(all) => assert_eq!(names_of(all), vec!["new"]),
        other => panic!("unexpected: {:?}", other),
    }
    assert!(matches!(client.get_all_namespaces(54), Bulk::Fetch(_)));
}

#[test]
fn radar_rules_are_cached_for_their_own_time() {
    let mut client = client_at("http://h");
    client.store_radar_rules(rules(&["81.cn"]), 10);
    match client.get_all_radar_rules(610) {
        Bulk::Cached(all) => assert_eq!(names_of(all), vec!["81.cn"]),
        other => panic!("unexpected: {:?}", other),
    }
    assert!(matches!(client.get_all_radar_rules(611), Bulk::Fetch(_)));
    assert!(matches!(client.get_all_namespaces(10), Bulk::Fetch(_)));
}

#[test]
fn cache_slot_serves_while_valid() {
    let mut slot: CacheSlot<u8> = CacheSlot::new();
    assert_eq!(slot.get(10, 0), None);
    slot.put(7, 100);
    assert_eq!(slot.get(10, 100), Some(&7));
    assert_eq!(slot.get(10, 110), Some(&7));
    assert_eq!(slot.get(10, 111), None);
    assert_eq!(slot.get(0, 100), Some(&7));
    assert_eq!(slot.get(0, 101), None);
    // A clock that reads less than at the time of storing: no age.
    assert_eq!(slot.get(0, 99), Some(&7));
    slot.put(8, 200);
    assert_eq!(slot.get(10, 205), Some(&8));
    assert_eq!(slot.get(u64::MAX, u64::MAX), Some(&8));
    let entry = CacheEntry { value: (), stored_at: u64::MAX };
    assert!(entry.valid(0, u64::MAX));
    assert!(entry.valid(0, 0));
}

#[test]
fn status_decides_on_success() {
    let client = client_at("http://h");
    let fetch = client.get_namespace("zyw");
    for status in [200, 201, 204, 299] {
        assert!(check_status(&fetch, status).is_ok());
    }
    for status in [0, 100, 199, 300, 301, 404, 500, u16::MAX] {
        match check_status(&fetch, status) {
            Err(ApiError::Status(m)) => assert_eq!(m, "Failed to fetch namespace"),
            other => panic!("unexpected: {:?}", other),
        }
    }
}

#[test]
fn status_failure_names_the_endpoint() {
    let client = client_at("http://h");
    let message = |r: Result<(), ApiError>| r.unwrap_err().message().to_string();
    match client.get_all_namespaces(0) {
        Bulk::Fetch(f) => assert_eq!(message(check_status(&f, 500)), "Failed to fetch namespaces"),
        other => panic!("unexpected: {:?}", other),
    }
    match client.get_all_radar_rules(0) {
        Bulk::Fetch(f) => assert_eq!(message(check_status(&f, 500)), "Failed to fetch radar rules"),
        other => panic!("unexpected: {:?}", other),
    }
    assert_eq!(message(check_status(&client.get_radar_rule("x"), 404)), "Failed to fetch radar rule");
    assert_eq!(message(check_status(&client.get_category("x"), 404)), "Failed to fetch category");
    assert_eq!(
        message(check_status(&client.get_feed("/a/b"), 404)),
        "Failed to fetch RSS feed from path: a/b"
    );
}

#[test]
fn feed_reply_is_read_or_refused() {
    let client = client_at("http://h");
    let fetch = client.get_feed("/a");
    let feed = client.read_feed(&fetch, 200, "<html/>").unwrap();
    assert_eq!(feed.title, "RSS Feed");
    assert_eq!(feed.raw_content.as_deref(), Some("<html/>"));
    match client.read_feed(&fetch, 503, "<rss/>") {
        Err(ApiError::Status(m)) => assert_eq!(m, "Failed to fetch RSS feed from path: a"),
        other => panic!("unexpected: {:?}", other),
    }
}

#[test]
fn unreadable_body_is_a_deserialization_failure() {
    assert_eq!(decoded(Ok::<u8, String>(7)).unwrap(), 7);
    match decoded::<u8>(Err("missing field `name`".to_string())) {
        Err(ApiError::Deserialization(m)) => assert_eq!(m, "missing field `name`"),
        other => panic!("unexpected: {:?}", other),
    }
}

#[test]
fn api_errors_carry_their_message() {
    assert_eq!(ApiError::Transport("t".to_string()).message(), "t");
    assert_eq!(ApiError::Status("s".to_string()).message(), "s");
    assert_eq!(ApiError::Deserialization("d".to_string()).message(), "d");
}

/// Follows the retry rules against a transport that fails `failures` times
/// and then answers. Gives the end, the number of sends and the waits.
fn drive(policy: RetryPolicy, failures: u32) -> (Result<u32, String>, u32, Vec<u64>) {
    let mut state = RetryState::new();
    let mut event: RetryEvent<u32> = RetryEvent::Start;
    let mut sends = 0;
    let mut waits = vec![];
    loop {
        let (next, action) = step(&policy, state, event);
        state = next;
        event = match action {
            RetryAction::Send => {
                sends += 1;
                if sends <= failures {
                    RetryEvent::Failed(format!("refused #{}", sends))
                } else {
                    RetryEvent::Responded(200 + sends)
                }
            },
            RetryAction::Sleep(ms) => {
                waits.push(ms);
                RetryEvent::Slept
            },
            RetryAction::Deliver(reply) => return (Ok(reply), sends, waits),
            RetryAction::GiveUp(ApiError::Transport(message)) => {
                return (Err(message), sends, waits)
            },
            RetryAction::GiveUp(other) => panic!("unexpected: {:?}", other),
        };
    }
}

#[test]
fn retry_succeeds_on_the_last_attempt() {
    let policy = RetryPolicy { retries: 3, backoff_ms: 150 };
    assert_eq!(drive(policy, 2), (Ok(203), 3, vec![150, 150]));
    assert_eq!(drive(policy, 0), (Ok(201), 1, vec![]));
    assert_eq!(drive(policy, 1), (Ok(202), 2, vec![150]));
}

#[test]
fn retry_gives_up_after_all_attempts() {
    let policy = RetryPolicy { retries: 3, backoff_ms: 150 };
    let failed = Err("HTTP GET failed after retries: refused #3".to_string());
    assert_eq!(drive(policy, 3), (failed.clone(), 3, vec![150, 150, 150]));
    assert_eq!(drive(policy, 10), (failed, 3, vec![150, 150, 150]));
    let once = RetryPolicy { retries: 1, backoff_ms: 10 };
    assert_eq!(
        drive(once, 1),
        (Err("HTTP GET failed after retries: refused #1".to_string()), 1, vec![10])
    );
}

#[test]
fn retry_without_attempts_fails_at_once() {
    let never = RetryPolicy { retries: 0, backoff_ms: 150 };
    assert_eq!(drive(never, 0), (Err("HTTP GET failed after retries: ".to_string()), 0, vec![]));
}

#[test]
fn retry_steps_one_by_one() {
    let policy = RetryPolicy { retries: 2, backoff_ms: 5 };
    let state = RetryState::new();
    assert_eq!((state.attempts, state.last_error.clone()), (0, None));
    let (state, action) = step::<()>(&policy, state, RetryEvent::Failed("a".to_string()));
    assert!(matches!(action, RetryAction::Sleep(5)));
    assert_eq!((state.attempts, state.last_error.as_deref()), (1, Some("a")));
    let (state, action) = step::<()>(&policy, state, RetryEvent::Slept);
    assert!(matches!(action, RetryAction::Send));
    assert_eq!(state.attempts, 1);
    // A reply ends the retrying whatever it says.
    let (state, action) = step(&policy, state, RetryEvent::Responded(500u16));
    assert!(matches!(action, RetryAction::Deliver(500)));
    assert_eq!((state.attempts, state.last_error.as_deref()), (1, Some("a")));
    let full = RetryState { attempts: u32::MAX, last_error: None };
    let (full, _) = step::<()>(&policy, full, RetryEvent::Failed("z".to_string()));
    assert_eq!(full.attempts, u32::MAX);
}
