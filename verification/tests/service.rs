use rsshub_mcp::client::{Endpoint, RsshubClientConfig};
use rsshub_mcp::config::{Config, ConfigError};
use rsshub_mcp::dispatch::{OutputFormat, ToolCall};
use rsshub_mcp::feed::parse_rss_content;
use rsshub_mcp::model::{
    CategoryItems, Keyed, MultiType, NamespaceResp, RouteDetails, RoutesMap, RulesInfo,
};
use rsshub_mcp::service::{
    handle_get_all_namespaces, handle_get_categories, handle_get_feed, handle_get_route_detail,
    handle_search_all_routes, handle_search_routes, handle_suggest_route_keys, respond, Fetched,
    Payload, RSSHubService, Rendering, Step,
};

fn route(name: &str) -> RouteDetails {
    RouteDetails {
        path: MultiType::Multiple(vec!["/a".to_string(), "/b".to_string()]),
        name: name.to_string(),
        url: None,
        maintainers: vec!["someone".to_string()],
        example: None,
        parameters: None,
        description: None,
        categories: None,
        features: None,
        radar: None,
        location: None,
        view: Some(3),
    }
}

fn bilibili() -> RoutesMap {
    RoutesMap {
        routes: Keyed::from_entries(vec![
            ("/live/room/:roomID".to_string(), route("Live Room")),
            ("/user/video/:uid".to_string(), route("Uploads")),
        ]),
    }
}

fn catalog() -> NamespaceResp {
    Keyed::from_entries(vec![
        ("bilibili".to_string(), bilibili()),
        ("github".to_string(), RoutesMap { routes: None }),
    ])
    .unwrap()
}

fn service() -> RSSHubService {
    RSSHubService::with_config(RsshubClientConfig {
        host: Some("http://h".to_string()),
        ..Default::default()
    })
}

fn text(r: Rendering) -> String {
    match r {
        Rendering::Text(t) => t,
        other => panic!("no text: {:?}", other),
    }
}

#[test]
fn service_has_the_default_client() {
    let s = RSSHubService::new();
    assert_eq!(s.client.host, "https://rsshub.akjong.com");
    assert_eq!(s.client.retries, 3);
    assert_eq!(s.client.namespaces_ttl_secs, 300);
    assert_eq!(s.list_tools().len(), 11);
    assert_eq!(service().client.host, "http://h");
    assert_eq!(service().client.timeout, 120);
}

#[test]
fn service_validates_calls() {
    let s = service();
    assert!(s.handle_tool_call("nope", None).is_err());
    assert!(s.handle_tool_call("get_namespace", None).is_err());
    let doc: serde_json::Value = serde_json::from_str(r#"{"namespace": "x"}"#).unwrap();
    assert!(matches!(
        s.handle_tool_call("get_namespace", Some(&doc)),
        Ok(ToolCall::GetNamespace { .. })
    ));
}

#[test]
fn categories_are_answered_at_once() {
    let s = service();
    let expected = "Available categories: blog, news, programming, social-media, finance, entertainment, government, study, multimedia, picture, travel, shopping, game, reading, university, forecast, bbs, live, anime, tech\n\nUse 'get_category' tool with a specific category name to get feeds for that category.";
    match s.begin(&ToolCall::GetCategories, 0) {
        Step::Answer(r) => assert_eq!(text(r), expected),
        other => panic!("unexpected: {:?}", other),
    }
    assert_eq!(text(handle_get_categories()), expected);
}

#[test]
fn listing_is_requested_then_answered_from_cache() {
    let mut s = service();
    let call = ToolCall::SearchNamespaces { query: Some("bili".to_string()) };
    match s.begin(&call, 100) {
        Step::Fetch(f) => {
            assert_eq!(f.url, "http://h/api/namespace");
            assert_eq!(f.endpoint, Endpoint::Namespaces);
        },
        other => panic!("unexpected: {:?}", other),
    }
    s.client.store_namespaces(catalog(), 100);
    match s.begin(&call, 100) {
        Step::Answer(r) => assert_eq!(text(r), "Namespaces matching 'bili':\nbilibili"),
        other => panic!("unexpected: {:?}", other),
    }
    match s.begin(&ToolCall::GetAllNamespaces { format: OutputFormat::Text }, 400) {
        Step::Answer(Rendering::Debug(Payload::Namespaces(all))) => assert_eq!(all.len(), 2),
        other => panic!("unexpected: {:?}", other),
    }
    match s.begin(&ToolCall::GetAllNamespaces { format: OutputFormat::Json }, 400) {
        Step::Answer(Rendering::Json(Payload::Namespaces(all))) => {
            assert_eq!(all.entries()[0].0, "bilibili")
        },
        other => panic!("unexpected: {:?}", other),
    }
    let search = ToolCall::SearchRoutes {
        query: "LIVE".to_string(),
        namespace: None,
        limit: None,
        format: OutputFormat::Text,
    };
    match s.begin(&search, 400) {
        Step::Answer(r) => assert_eq!(
            text(r),
            "Found 1 routes (showing up to 20):\n- bilibili /live/room/:roomID — Live Room"
        ),
        other => panic!("unexpected: {:?}", other),
    }
    assert!(matches!(s.begin(&search, 401), Step::Fetch(_)));
}

#[test]
fn radar_rules_are_requested_then_answered_from_cache() {
    let mut s = service();
    let call = ToolCall::GetRadarRules { format: OutputFormat::Json };
    match s.begin(&call, 0) {
        Step::Fetch(f) => assert_eq!(f.url, "http://h/api/radar/rules"),
        other => panic!("unexpected: {:?}", other),
    }
    let rules = Keyed::from_entries(vec![(
        "81.cn".to_string(),
        RulesInfo { name: "81".to_string(), sections: Keyed::new() },
    )])
    .unwrap();
    s.client.store_radar_rules(rules, 0);
    match s.begin(&call, 600) {
        Step::Answer(Rendering::Json(Payload::RadarRules(r))) => {
            assert_eq!(r.entries()[0].0, "81.cn")
        },
        other => panic!("unexpected: {:?}", other),
    }
    match s.begin(&ToolCall::GetRadarRules { format: OutputFormat::Text }, 600) {
        Step::Answer(Rendering::Debug(Payload::RadarRules(_))) => {},
        other => panic!("unexpected: {:?}", other),
    }
}

#[test]
fn live_calls_always_request() {
    let mut s = service();
    s.client.store_namespaces(catalog(), 0);
    let url = |call: &ToolCall| match s.begin(call, 0) {
        Step::Fetch(f) => f.url,
        other => panic!("unexpected: {:?}", other),
    };
    let ns = "bilibili".to_string();
    let text = OutputFormat::Text;
    assert_eq!(
        url(&ToolCall::GetNamespace { namespace: ns.clone(), format: text }),
        "http://h/api/namespace/bilibili"
    );
    assert_eq!(
        url(&ToolCall::SearchRoutes {
            query: "q".to_string(),
            namespace: Some(ns.clone()),
            limit: None,
            format: text
        }),
        "http://h/api/namespace/bilibili"
    );
    assert_eq!(
        url(&ToolCall::GetRouteDetail {
            namespace: ns.clone(),
            route_key: "/k".to_string(),
            format: text
        }),
        "http://h/api/namespace/bilibili"
    );
    assert_eq!(
        url(&ToolCall::SuggestRouteKeys {
            namespace: ns.clone(),
            partial: "p".to_string(),
            limit: None
        }),
        "http://h/api/namespace/bilibili"
    );
    assert_eq!(
        url(&ToolCall::GetRadarRule { rule_name: "81.cn".to_string(), format: text }),
        "http://h/api/radar/rules/81.cn"
    );
    assert_eq!(
        url(&ToolCall::GetCategory { category: "new-media".to_string(), format: text }),
        "http://h/api/category/new-media"
    );
    assert_eq!(
        url(&ToolCall::GetFeed { path: "/bilibili/x".to_string(), format: text }),
        "http://h/bilibili/x"
    );
}

#[test]
fn fetched_value_answers_its_call() {
    let s = service();
    let data = Fetched::Namespace(bilibili());
    let call = ToolCall::GetNamespace { namespace: "bilibili".to_string(), format: OutputFormat::Json };
    assert!(data.answers(&call));
    assert!(matches!(s.finish(&call, &data), Rendering::Json(Payload::Namespace(_))));
    let call = ToolCall::GetNamespace { namespace: "bilibili".to_string(), format: OutputFormat::Text };
    assert!(matches!(s.finish(&call, &data), Rendering::Debug(Payload::Namespace(_))));
    let suggest = ToolCall::SuggestRouteKeys {
        namespace: "bilibili".to_string(),
        partial: "/user".to_string(),
        limit: Some(1),
    };
    assert!(data.answers(&suggest));
    assert_eq!(text(s.finish(&suggest, &data)), "Suggested route keys (top 1):\n/user/video/:uid");
    let feed = Fetched::Feed(parse_rss_content("<p>"));
    let get_feed = ToolCall::GetFeed { path: "x".to_string(), format: OutputFormat::Text };
    assert!(feed.answers(&get_feed));
    assert!(!feed.answers(&call));
    assert!(!data.answers(&get_feed));
    assert!(!data.answers(&ToolCall::GetAllNamespaces { format: OutputFormat::Json }));
    assert!(!data.answers(&ToolCall::SearchRoutes {
        query: "q".to_string(),
        namespace: None,
        limit: None,
        format: OutputFormat::Text
    }));
    assert_eq!(
        text(s.finish(&get_feed, &feed)),
        "RSS Feed: RSS Feed\nDescription: RSS feed content\n(raw content available)"
    );
    let rule = Fetched::RadarRule(RulesInfo { name: "n".to_string(), sections: Keyed::new() });
    let get_rule = ToolCall::GetRadarRule { rule_name: "n".to_string(), format: OutputFormat::Json };
    assert!(rule.answers(&get_rule));
    assert!(matches!(s.finish(&get_rule, &rule), Rendering::Json(Payload::RadarRule(_))));
    let category = Fetched::Category(CategoryItems(Keyed::new()));
    let get_category = ToolCall::GetCategory { category: "c".to_string(), format: OutputFormat::Text };
    assert!(category.answers(&get_category));
    assert!(matches!(s.finish(&get_category, &category), Rendering::Debug(Payload::Category(_))));
}

#[test]
fn search_in_a_namespace_in_both_formats() {
    let map = bilibili();
    match handle_search_routes("bilibili", &map, "live", Some(5), OutputFormat::Json) {
        Rendering::Json(Payload::Hits(hits)) => {
            assert_eq!(hits.len(), 1);
            assert_eq!(hits[0].namespace, "bilibili");
            assert_eq!(hits[0].route_key, "/live/room/:roomID");
        },
        other => panic!("unexpected: {:?}", other),
    }
    assert_eq!(
        text(handle_search_routes("bilibili", &map, "live", Some(5), OutputFormat::Text)),
        "Found 1 routes (showing up to 5):\n- bilibili /live/room/:roomID — Live Room"
    );
    assert_eq!(
        text(handle_search_routes("bilibili", &map, "", None, OutputFormat::Text)),
        "Found 2 routes (showing up to 20):\n- bilibili /live/room/:roomID — Live Room\n- bilibili /user/video/:uid — Uploads"
    );
    assert_eq!(
        text(handle_search_routes("bilibili", &map, "zzz", None, OutputFormat::Text)),
        "No route found matching 'zzz'."
    );
    assert_eq!(
        text(handle_search_all_routes(&catalog(), "", Some(1), OutputFormat::Text)),
        "Found 1 routes (showing up to 1):\n- bilibili /live/room/:roomID — Live Room"
    );
    assert_eq!(
        text(handle_search_all_routes(&catalog(), "", Some(0), OutputFormat::Text)),
        "No route found matching ''."
    );
    let most = usize::MAX.to_string();
    assert_eq!(
        text(handle_search_all_routes(&catalog(), "uploads", Some(u64::MAX), OutputFormat::Text)),
        format!("Found 1 routes (showing up to {}):\n- bilibili /user/video/:uid — Uploads", most)
    );
}

#[test]
fn route_detail_or_a_note() {
    let map = bilibili();
    match handle_get_route_detail("bilibili", &map, "/user/video/:uid", OutputFormat::Json) {
        Rendering::Json(Payload::Route(d)) => assert_eq!(d.name, "Uploads"),
        other => panic!("unexpected: {:?}", other),
    }
    match handle_get_route_detail("bilibili", &map, "/user/video/:uid", OutputFormat::Text) {
        Rendering::Debug(Payload::Route(d)) => assert_eq!(d.name, "Uploads"),
        other => panic!("unexpected: {:?}", other),
    }
    assert_eq!(
        text(handle_get_route_detail("bilibili", &map, "/nope", OutputFormat::Json)),
        "Route '/nope' not found in namespace 'bilibili'."
    );
    let none = RoutesMap { routes: None };
    assert_eq!(
        text(handle_get_route_detail("github", &none, "/nope", OutputFormat::Json)),
        "Namespace 'github' has no routes."
    );
}

#[test]
fn suggestions_of_a_namespace() {
    let map = bilibili();
    assert_eq!(
        text(handle_suggest_route_keys("bilibili", &map, "live/ro", Some(5))),
        "Suggested route keys (top 2):\n/live/room/:roomID\n/user/video/:uid"
    );
    assert_eq!(
        text(handle_suggest_route_keys("bilibili", &map, "/user", None)),
        "Suggested route keys (top 2):\n/user/video/:uid\n/live/room/:roomID"
    );
    let none = RoutesMap { routes: None };
    assert_eq!(
        text(handle_suggest_route_keys("github", &none, "x", None)),
        "Namespace 'github' has no routes."
    );
}

#[test]
fn feed_as_json_or_summary() {
    let feed = parse_rss_content("<html/>");
    assert!(matches!(handle_get_feed(&feed, OutputFormat::Json), Rendering::Json(Payload::Feed(_))));
    assert_eq!(
        text(handle_get_feed(&feed, OutputFormat::Text)),
        "RSS Feed: RSS Feed\nDescription: RSS feed content\n(raw content available)"
    );
}

#[test]
fn failures_go_back_in_band() {
    let ok = respond(Ok("fine".to_string()));
    assert_eq!((ok.content.as_str(), ok.is_error), ("fine", false));
    let failed = respond(Err("Failed to fetch namespace".to_string()));
    assert_eq!((failed.content.as_str(), failed.is_error), ("Error: Failed to fetch namespace", true));
    let empty = respond(Err(String::new()));
    assert_eq!((empty.content.as_str(), empty.is_error), ("Error: ", true));
}

#[test]
fn settings_prefer_the_environment() {
    let some = |s: &str| Some(s.to_string());
    assert_eq!(Config::new(some("file:1"), some("env:2")).unwrap().sse_server_addr, "env:2");
    assert_eq!(Config::new(some("file:1"), None).unwrap().sse_server_addr, "file:1");
    assert_eq!(Config::new(None, some("env:2")).unwrap().sse_server_addr, "env:2");
    let e = Config::new(None, None).unwrap_err();
    assert_eq!(e, ConfigError::MissingAddress);
    assert_eq!(e.message(), "missing field `sse_server_addr`");
}

#[test]
fn all_namespaces_in_the_form_asked_for() {
    let all = catalog();
    assert!(matches!(
        handle_get_all_namespaces(&all, OutputFormat::Json),
        Rendering::Json(Payload::Namespaces(_))
    ));
    assert!(matches!(
        handle_get_all_namespaces(&all, OutputFormat::Text),
        Rendering::Debug(Payload::Namespaces(_))
    ));
    let s = service();
    let doc: serde_json::Value = serde_json::from_str(r#"{"format": "json"}"#).unwrap();
    assert!(matches!(
        s.handle_tool_call("get_all_namespaces", Some(&doc)),
        Ok(ToolCall::GetAllNamespaces { format: OutputFormat::Json })
    ));
    assert!(matches!(
        s.handle_tool_call("get_all_namespaces", None),
        Ok(ToolCall::GetAllNamespaces { format: OutputFormat::Text })
    ));
}
