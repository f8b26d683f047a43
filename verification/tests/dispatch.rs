use rsshub_mcp::dispatch::{
    decode, decode_for, handle_tool_call, Arguments, McpError, OutputFormat, ToolCall,
};
use rsshub_mcp::tools::{list_tools, ArgumentKind, ToolName};

fn args(json: &str) -> serde_json::Value {
    serde_json::from_str(json).unwrap()
}

fn no_arguments() -> Arguments {
    Arguments::read(None)
}

#[test]
fn unknown_tool_is_method_not_found() {
    let doc = args(r#"{"namespace": "bilibili"}"#);
    match handle_tool_call("no_such_tool", Some(&doc)) {
        Err(McpError::MethodNotFound(m)) => assert_eq!(m, "Unknown tool: no_such_tool"),
        other => panic!("unexpected: {:?}", other),
    }
    match handle_tool_call("", None) {
        Err(McpError::MethodNotFound(m)) => assert_eq!(m, "Unknown tool: "),
        other => panic!("unexpected: {:?}", other),
    }
    assert!(matches!(
        handle_tool_call("GET_NAMESPACE", Some(&doc)),
        Err(McpError::MethodNotFound(_))
    ));
}

#[test]
fn missing_namespace_is_invalid_params() {
    match handle_tool_call("get_namespace", Some(&args("{}"))) {
        Err(McpError::InvalidParams(m)) => assert_eq!(m, "namespace parameter is required"),
        other => panic!("unexpected: {:?}", other),
    }
    match handle_tool_call("get_namespace", None) {
        Err(McpError::InvalidParams(m)) => assert_eq!(m, "namespace parameter is required"),
        other => panic!("unexpected: {:?}", other),
    }
    // A number is no name.
    assert!(matches!(
        handle_tool_call("get_namespace", Some(&args(r#"{"namespace": 5}"#))),
        Err(McpError::InvalidParams(_))
    ));
    // Nor is a document that is no object.
    assert!(matches!(
        handle_tool_call("get_namespace", Some(&args(r#"["namespace"]"#))),
        Err(McpError::InvalidParams(_))
    ));
}

#[test]
fn error_message_is_readable() {
    let e = decode("nope", &no_arguments()).unwrap_err();
    assert_eq!(e.message(), "Unknown tool: nope");
    let e = decode("get_feed", &no_arguments()).unwrap_err();
    assert_eq!(e.message(), "path parameter is required");
}

#[test]
fn get_namespace_is_decoded() {
    let doc = args(r#"{"namespace": "bilibili", "format": "JSON"}"#);
    match handle_tool_call("get_namespace", Some(&doc)).unwrap() {
        ToolCall::GetNamespace { namespace, format } => {
            assert_eq!(namespace, "bilibili");
            assert_eq!(format, OutputFormat::Json);
        },
        other => panic!("unexpected: {:?}", other),
    }
}

#[test]
fn calls_without_arguments() {
    assert!(matches!(
        handle_tool_call("get_all_namespaces", None),
        Ok(ToolCall::GetAllNamespaces { format: OutputFormat::Text })
    ));
    assert!(matches!(
        handle_tool_call("get_all_namespaces", Some(&args(r#"{"format": "Json"}"#))),
        Ok(ToolCall::GetAllNamespaces { format: OutputFormat::Json })
    ));
    assert!(matches!(handle_tool_call("get_categories", None), Ok(ToolCall::GetCategories)));
    assert!(matches!(
        handle_tool_call("search_namespaces", None),
        Ok(ToolCall::SearchNamespaces { query: None })
    ));
    assert!(matches!(
        handle_tool_call("get_radar_rules", None),
        Ok(ToolCall::GetRadarRules { format: OutputFormat::Text })
    ));
}

#[test]
fn search_namespaces_takes_a_query() {
    match handle_tool_call("search_namespaces", Some(&args(r#"{"query": "bili"}"#))).unwrap() {
        ToolCall::SearchNamespaces { query } => assert_eq!(query.as_deref(), Some("bili")),
        other => panic!("unexpected: {:?}", other),
    }
}

#[test]
fn radar_rule_by_either_name() {
    let by_rule = args(r#"{"rule_name": "github.com", "domain": "other.org"}"#);
    match handle_tool_call("get_radar_rule", Some(&by_rule)).unwrap() {
        ToolCall::GetRadarRule { rule_name, format } => {
            assert_eq!(rule_name, "github.com");
            assert_eq!(format, OutputFormat::Text);
        },
        other => panic!("unexpected: {:?}", other),
    }
    let by_domain = args(r#"{"domain": "81.cn", "format": "json"}"#);
    match handle_tool_call("get_radar_rule", Some(&by_domain)).unwrap() {
        ToolCall::GetRadarRule { rule_name, format } => {
            assert_eq!(rule_name, "81.cn");
            assert_eq!(format, OutputFormat::Json);
        },
        other => panic!("unexpected: {:?}", other),
    }
    match handle_tool_call("get_radar_rule", Some(&args("{}"))) {
        Err(McpError::InvalidParams(m)) => {
            assert_eq!(m, "rule_name or domain parameter is required")
        },
        other => panic!("unexpected: {:?}", other),
    }
}

#[test]
fn category_and_feed_need_their_argument() {
    match handle_tool_call("get_category", Some(&args(r#"{"format": "json"}"#))) {
        Err(McpError::InvalidParams(m)) => assert_eq!(m, "category parameter is required"),
        other => panic!("unexpected: {:?}", other),
    }
    match handle_tool_call("get_feed", Some(&args(r#"{"category": "x"}"#))) {
        Err(McpError::InvalidParams(m)) => assert_eq!(m, "path parameter is required"),
        other => panic!("unexpected: {:?}", other),
    }
    match handle_tool_call("get_category", Some(&args(r#"{"category": "new-media"}"#))).unwrap() {
        ToolCall::GetCategory { category, format } => {
            assert_eq!(category, "new-media");
            assert_eq!(format, OutputFormat::Text);
        },
        other => panic!("unexpected: {:?}", other),
    }
    match handle_tool_call("get_feed", Some(&args(r#"{"path": "/bilibili/x"}"#))).unwrap() {
        ToolCall::GetFeed { path, .. } => assert_eq!(path, "/bilibili/x"),
        other => panic!("unexpected: {:?}", other),
    }
}

#[test]
fn search_routes_is_decoded() {
    let doc = args(r#"{"query": "live", "namespace": "bilibili", "limit": 5, "format": "json"}"#);
    match handle_tool_call("search_routes", Some(&doc)).unwrap() {
        ToolCall::SearchRoutes { query, namespace, limit, format } => {
            assert_eq!(query, "live");
            assert_eq!(namespace.as_deref(), Some("bilibili"));
            assert_eq!(limit, Some(5));
            assert_eq!(format, OutputFormat::Json);
        },
        other => panic!("unexpected: {:?}", other),
    }
    // A limit that is no non-negative integer counts as none.
    let doc = args(r#"{"query": "live", "limit": -3}"#);
    match handle_tool_call("search_routes", Some(&doc)).unwrap() {
        ToolCall::SearchRoutes { namespace, limit, .. } => {
            assert_eq!(namespace, None);
            assert_eq!(limit, None);
        },
        other => panic!("unexpected: {:?}", other),
    }
    let doc = args(r#"{"query": "live", "limit": "5"}"#);
    assert!(matches!(
        handle_tool_call("search_routes", Some(&doc)),
        Ok(ToolCall::SearchRoutes { limit: None, .. })
    ));
}

#[test]
fn route_tools_need_an_arguments_document() {
    for tool in ["search_routes", "get_route_detail", "suggest_route_keys"] {
        match handle_tool_call(tool, None) {
            Err(McpError::InvalidParams(m)) => assert_eq!(m, "arguments are required"),
            other => panic!("unexpected: {:?}", other),
        }
    }
    match handle_tool_call("search_routes", Some(&args("{}"))) {
        Err(McpError::InvalidParams(m)) => assert_eq!(m, "query parameter is required"),
        other => panic!("unexpected: {:?}", other),
    }
}

#[test]
fn route_detail_checks_namespace_first() {
    match handle_tool_call("get_route_detail", Some(&args("{}"))) {
        Err(McpError::InvalidParams(m)) => assert_eq!(m, "namespace parameter is required"),
        other => panic!("unexpected: {:?}", other),
    }
    match handle_tool_call("get_route_detail", Some(&args(r#"{"namespace": "b"}"#))) {
        Err(McpError::InvalidParams(m)) => assert_eq!(m, "route_key parameter is required"),
        other => panic!("unexpected: {:?}", other),
    }
    let doc = args(r#"{"namespace": "b", "route_key": "/k"}"#);
    match handle_tool_call("get_route_detail", Some(&doc)).unwrap() {
        ToolCall::GetRouteDetail { namespace, route_key, format } => {
            assert_eq!(namespace, "b");
            assert_eq!(route_key, "/k");
            assert_eq!(format, OutputFormat::Text);
        },
        other => panic!("unexpected: {:?}", other),
    }
}

#[test]
fn suggest_route_keys_is_decoded() {
    match handle_tool_call("suggest_route_keys", Some(&args(r#"{"partial": "x"}"#))) {
        Err(McpError::InvalidParams(m)) => assert_eq!(m, "namespace parameter is required"),
        other => panic!("unexpected: {:?}", other),
    }
    match handle_tool_call("suggest_route_keys", Some(&args(r#"{"namespace": "b"}"#))) {
        Err(McpError::InvalidParams(m)) => assert_eq!(m, "partial parameter is required"),
        other => panic!("unexpected: {:?}", other),
    }
    let doc = args(r#"{"namespace": "bilibili", "partial": "live/ro", "limit": 5}"#);
    match handle_tool_call("suggest_route_keys", Some(&doc)).unwrap() {
        ToolCall::SuggestRouteKeys { namespace, partial, limit } => {
            assert_eq!(namespace, "bilibili");
            assert_eq!(partial, "live/ro");
            assert_eq!(limit, Some(5));
        },
        other => panic!("unexpected: {:?}", other),
    }
}

#[test]
fn arguments_are_read_by_kind() {
    let doc = args(
        r#"{"namespace": "n", "query": null, "rule_name": true, "domain": ["d"],
            "category": {"a": 1}, "path": 1.5, "route_key": "", "partial": "p",
            "format": "text", "limit": 18446744073709551615}"#,
    );
    let a = Arguments::read(Some(&doc));
    assert!(a.present);
    assert_eq!(a.namespace.as_deref(), Some("n"));
    assert_eq!(a.query, None);
    assert_eq!(a.rule_name, None);
    assert_eq!(a.domain, None);
    assert_eq!(a.category, None);
    assert_eq!(a.path, None);
    assert_eq!(a.route_key.as_deref(), Some(""));
    assert_eq!(a.partial.as_deref(), Some("p"));
    assert_eq!(a.format.as_deref(), Some("text"));
    assert_eq!(a.limit, Some(u64::MAX));
    let a = Arguments::read(Some(&args(r#"{"limit": 1.0}"#)));
    assert_eq!(a.limit, None);
    let a = Arguments::read(None);
    assert!(!a.present);
    assert_eq!(a.namespace, None);
    assert_eq!(a.limit, None);
    let a = Arguments::read(Some(&args("null")));
    assert!(a.present);
    assert_eq!(a.namespace, None);
}

#[test]
fn format_is_json_in_any_case_only() {
    let f = |s: &str| OutputFormat::from_argument(&Some(s.to_string()));
    assert_eq!(f("json"), OutputFormat::Json);
    assert_eq!(f("JSON"), OutputFormat::Json);
    assert_eq!(f("jSoN"), OutputFormat::Json);
    assert_eq!(f("text"), OutputFormat::Text);
    assert_eq!(f(""), OutputFormat::Text);
    assert_eq!(f("json "), OutputFormat::Text);
    assert_eq!(f("jso"), OutputFormat::Text);
    assert_eq!(f("yaml"), OutputFormat::Text);
    assert_eq!(f("j\u{17f}on"), OutputFormat::Text);
    assert_eq!(OutputFormat::from_argument(&None), OutputFormat::Text);
}

#[test]
fn every_listed_tool_is_known_by_its_name() {
    let tools = list_tools();
    assert_eq!(tools.len(), 11);
    let names: Vec<&str> = tools.iter().map(|t| t.name.as_str()).collect();
    assert_eq!(
        names,
        vec![
            "get_all_namespaces",
            "get_namespace",
            "search_namespaces",
            "get_radar_rules",
            "get_radar_rule",
            "get_categories",
            "get_category",
            "get_feed",
            "search_routes",
            "get_route_detail",
            "suggest_route_keys",
        ]
    );
    for (i, tool) in tools.iter().enumerate() {
        let name = ToolName::parse(&tool.name).unwrap();
        assert_eq!(name, ToolName::at(i));
        assert_eq!(name.as_str(), tool.name);
        // Without any argument a tool is refused exactly where its schema
        // requires one, or where it takes a rule under either name.
        let refused = decode_for(name, &no_arguments()).is_err();
        assert_eq!(refused, !tool.required.is_empty() || tool.name == "get_radar_rule");
        for required in &tool.required {
            assert!(tool.arguments.iter().any(|a| &a.name == required));
        }
    }
    assert_eq!(ToolName::parse("list_tools"), None);
}

#[test]
fn schemas_of_the_tools() {
    let tools = list_tools();
    assert_eq!(tools[0].arguments.len(), 1);
    assert_eq!(tools[0].arguments[0].name, "format");
    assert_eq!(tools[0].arguments[0].choices, vec!["text".to_string(), "json".to_string()]);
    assert!(tools[0].required.is_empty());
    assert!(tools[5].arguments.is_empty());
    assert!(tools[5].required.is_empty());
    assert_eq!(tools[0].description, "Get all available namespaces in RSSHub");
    let get_namespace = &tools[1];
    assert_eq!(get_namespace.required, vec!["namespace".to_string()]);
    assert_eq!(get_namespace.arguments.len(), 2);
    assert_eq!(get_namespace.arguments[0].name, "namespace");
    assert_eq!(get_namespace.arguments[0].kind, ArgumentKind::Text);
    assert_eq!(
        get_namespace.arguments[0].description,
        "The namespace to query (e.g., 'bilibili', 'github')"
    );
    assert!(get_namespace.arguments[0].choices.is_empty());
    let format = &get_namespace.arguments[1];
    assert_eq!(format.name, "format");
    assert_eq!(format.choices, vec!["text".to_string(), "json".to_string()]);
    assert_eq!(format.description, "Output format (default text)");
    let search = &tools[8];
    assert_eq!(search.name, "search_routes");
    assert_eq!(search.required, vec!["query".to_string()]);
    let limit = &search.arguments[2];
    assert_eq!(limit.name, "limit");
    assert_eq!(limit.kind, ArgumentKind::Integer);
    assert_eq!((limit.minimum, limit.maximum), (Some(1), Some(200)));
    let suggest = &tools[10];
    assert_eq!(suggest.required, vec!["namespace".to_string(), "partial".to_string()]);
    assert_eq!(suggest.arguments[2].maximum, Some(50));
    assert!(tools[4].required.is_empty());
    let rule_arguments: Vec<&str> = tools[4].arguments.iter().map(|a| a.name.as_str()).collect();
    assert_eq!(rule_arguments, vec!["rule_name", "domain", "format"]);
    assert_eq!(tools[9].required, vec!["namespace".to_string(), "route_key".to_string()]);
}
