use rust_jira_mcp::config::jira::JiraConfig;
use rust_jira_mcp::logging::{ConsoleOutput, LogFormat, LogLevel, LoggingConfig, MetricsCollector};
use rust_jira_mcp::mcp::{
    classify_method, internal_failure, tool_failure, McpSession, RequestKind, Route, TestAuthTool,
    INTERNAL_ERROR, INVALID_PARAMS, METHOD_NOT_FOUND, PROTOCOL_VERSION, SERVER_NAME,
};
use rust_jira_mcp::tools::{advertised_tools, find_tool, handled_tools};
use rust_jira_mcp::error::JiraError;

#[test]
fn methods_are_classified() {
    assert_eq!(classify_method("initialize"), RequestKind::Initialize);
    assert_eq!(classify_method("tools/list"), RequestKind::ListTools);
    assert_eq!(classify_method("tools/call"), RequestKind::CallTool);
    assert_eq!(classify_method("notifications/initialized"), RequestKind::InitializedNotification);
    assert_eq!(classify_method("resources/list"), RequestKind::Unknown);
}

#[test]
fn requests_are_routed() {
    let mut s = McpSession::new();
    assert!(!s.is_initialized());
    assert!(matches!(s.route("initialize", true), Route::Initialize));
    assert!(matches!(s.route("tools/list", true), Route::ListTools));
    assert!(matches!(s.route("tools/call", true), Route::CallTool));
    match s.route("tools/call", false) {
        Route::Reject(e) => {
            assert_eq!(e.code, INVALID_PARAMS);
            assert_eq!(e.message, "Invalid params");
        }
        _ => panic!("expected invalid params"),
    }
    match s.route("nope", true) {
        Route::Reject(e) => {
            assert_eq!(e.code, METHOD_NOT_FOUND);
            assert_eq!(e.message, "Method not found");
        }
        _ => panic!("expected method not found"),
    }
    assert!(!s.is_initialized());
    assert!(matches!(s.route("notifications/initialized", false), Route::NoReply));
    assert!(s.is_initialized());
}

#[test]
fn failure_errors_and_constants() {
    let e = tool_failure();
    assert_eq!((e.code, e.message.as_str()), (INTERNAL_ERROR, "Tool execution failed"));
    let e = internal_failure();
    assert_eq!((e.code, e.message.as_str()), (-32603, "Internal error"));
    assert_eq!(PROTOCOL_VERSION, "2024-11-05");
    assert_eq!(SERVER_NAME, "rust-jira-mcp");
}

#[test]
fn tools_are_found_by_name() {
    assert_eq!(handled_tools().len(), 61);
    assert_eq!(advertised_tools().len(), 60);
    assert_eq!(advertised_tools()[0], "test_jira_auth");
    assert_eq!(find_tool("test_jira_auth").ok(), Some(0));
    assert!(find_tool("link_jira_issues").is_ok());
    match find_tool("no_such_tool") {
        Err(JiraError::Unknown { message }) => assert_eq!(message, "Unknown tool: no_such_tool"),
        _ => panic!("expected an unknown tool"),
    }
    for name in advertised_tools() {
        assert!(find_tool(name).is_ok());
    }
}

#[test]
fn auth_tool_keeps_its_configuration() {
    let c = JiraConfig::default();
    let t = TestAuthTool::new(c);
    assert_eq!(t.config().api_base_url, "https://jira.corp.adobe.com/rest/api/2");
}

#[test]
fn logging_presets() {
    let p = LoggingConfig::production();
    assert_eq!(p.level, LogLevel::Warn);
    assert_eq!(p.format, LogFormat::Json);
    assert!(p.console_enabled && p.file_enabled);
    let d = LoggingConfig::development();
    assert_eq!(d.level, LogLevel::Debug);
    assert_eq!(d.format, LogFormat::Pretty);
    assert!(d.console_enabled && !d.file_enabled);
    let def = LoggingConfig::default();
    assert_eq!(def.level, LogLevel::Info);
    assert_eq!(LogLevel::default(), LogLevel::Info);
    assert_eq!(LogFormat::default(), LogFormat::Pretty);
}

#[test]
fn logging_filter_and_console() {
    let mut c = LoggingConfig::default();
    assert_eq!(c.filter_directive(), "info");
    c.level = LogLevel::Trace;
    assert_eq!(c.filter_directive(), "trace");
    assert_eq!(c.console_output(), ConsoleOutput::Pretty);
    c.format = LogFormat::Compact;
    assert_eq!(c.console_output(), ConsoleOutput::Compact);
    c.console_enabled = false;
    assert_eq!(c.console_output(), ConsoleOutput::Discard);
}

#[test]
fn operation_counts_grow_by_one() {
    let mut m = MetricsCollector::new();
    assert_eq!(m.count("search"), 0);
    m.record_operation_success("search");
    m.record_operation_success("search");
    m.record_operation_success("create");
    assert_eq!(m.count("search"), 2);
    assert_eq!(m.count("create"), 1);
    assert_eq!(m.count("delete"), 0);
}

#[test]
fn missing_arguments_are_reported_by_name() {
    match rust_jira_mcp::tools::missing_parameter("issue_key") {
        JiraError::ApiError { message, error_codes } => {
            assert_eq!(message, "Missing required parameter: issue_key");
            assert!(error_codes.is_none());
        }
        _ => panic!("expected an API error"),
    }
}

#[test]
fn catalogue_lists_each_tool_with_its_arguments() {
    let tools = rust_jira_mcp::tools::list_tools();
    assert_eq!(tools.len(), 60);
    let names: Vec<&str> = tools.iter().map(|t| t.name).collect();
    assert_eq!(names, advertised_tools());
    for t in &tools {
        for r in &t.required {
            assert!(t.params.iter().any(|p| p.name == *r), "{} requires an unknown {}", t.name, r);
        }
    }
    let step = tools.iter().find(|t| t.name == "update_zephyr_test_step").unwrap();
    assert_eq!(step.required, vec!["test_case_id", "step_id"]);
    let mixed = tools.iter().find(|t| t.name == "mixed_bulk_operations").unwrap();
    let operations = &mixed.params[0];
    assert_eq!(operations.name, "operations");
    assert_eq!(operations.items, Some(rust_jira_mcp::tools::ParamKind::Object));
    assert_eq!(operations.required_fields, vec!["issue_key", "operation_type", "data"]);
    assert_eq!(operations.fields[1].choices, vec!["update", "transition", "add_comment", "mixed"]);
}

#[test]
fn zephyr_test_step_tools_require_their_arguments() {
    let tools = rust_jira_mcp::tools::zephyr_test_step_tools();
    let required: Vec<Vec<&str>> = tools.iter().map(|t| t.required.clone()).collect();
    assert_eq!(
        required,
        vec![
            vec!["test_case_id"],
            vec!["test_case_id", "step", "order"],
            vec!["test_case_id", "step_id"],
            vec!["test_case_id", "step_id"],
        ]
    );
    let get_labels = rust_jira_mcp::tools::label_tool_definitions();
    assert!(get_labels[0].params.is_empty() && get_labels[0].required.is_empty());
}

#[test]
fn catalogue_gives_each_argument_its_kind_and_description() {
    let tools = rust_jira_mcp::tools::comment_and_transition_tools();
    let transition = &tools[3];
    assert_eq!(transition.name, "transition_jira_issue");
    assert_eq!(transition.params[1].name, "transition_id");
    assert_eq!(transition.params[1].kind, rust_jira_mcp::tools::ParamKind::String);
    assert_eq!(transition.params[1].description, "The ID of the transition to apply");
    let clone = &rust_jira_mcp::tools::cloning_tool_definitions()[0];
    let mapping = clone.params.iter().find(|p| p.name == "field_mapping").unwrap();
    assert_eq!(mapping.kind, rust_jira_mcp::tools::ParamKind::Object);
    let custom = mapping.fields.iter().find(|f| f.name == "custom_field_mapping").unwrap();
    assert_eq!(custom.values, Some(rust_jira_mcp::tools::ParamKind::String));
    let copy = mapping.fields.iter().find(|f| f.name == "copy_fields").unwrap();
    assert_eq!(copy.items, Some(rust_jira_mcp::tools::ParamKind::String));
}
