use rust_jira_mcp::error::{next_retry, should_retry, ErrorBody, JiraError};
use rust_jira_mcp::jira::bulk::{
    bulk_items, comment_data, resolve_operation, transition_data, BulkOperationItem, BulkRun,
    BulkStep, OperationData, ResolvedOperation,
};
use rust_jira_mcp::jira::cloning::{plan_field_copies, JiraFieldMapping};
use rust_jira_mcp::jira::limiter::RateLimiter;
use rust_jira_mcp::jira::requests::{
    build_url, encode_query, endpoint_with, search_endpoint, test_case_search_endpoint,
    zephyr_api_base_url,
};
use rust_jira_mcp::types::{
    AvailabilityProperty, BulkOperationConfig, BulkOperationResult, BulkOperationSummary,
    BulkOperationType, ConditionalityProperty, ScopeProperty, ScreenProperty, TransitionProperties,
};

#[test]
fn query_encoding_escapes_reserved_characters() {
    assert_eq!(
        encode_query(&vec![
            ("q".to_string(), "a-b_c.d~e".to_string()),
            ("k&y".to_string(), "x/y?z".to_string()),
        ]),
        "q=a-b_c.d~e&k%26y=x%2Fy%3Fz"
    );
}

#[test]
fn retry_decisions() {
    for s in [429u16, 500, 502, 503, 504] {
        assert!(should_retry(s));
    }
    for s in [200u16, 400, 401, 404, 501] {
        assert!(!should_retry(s));
    }
    assert_eq!(next_retry(0, 3, true), Some((1, 1000)));
    assert_eq!(next_retry(2, 3, true), Some((3, 3000)));
    assert_eq!(next_retry(3, 3, true), None);
    assert_eq!(next_retry(0, 3, false), None);
}

#[test]
fn status_codes_display_with_their_reason() {
    let e = JiraError::HttpError { status: 429, message: "slow down".to_string() };
    assert_eq!(e.to_string(), "HTTP error: 429 Too Many Requests - slow down");
    let e = JiraError::HttpError { status: 599, message: "x".to_string() };
    assert_eq!(e.to_string(), "HTTP error: 599 <unknown status code> - x");
    match JiraError::from_jira_response(404, &ErrorBody::Other) {
        JiraError::ApiError { message, .. } => assert_eq!(message, "HTTP 404 Not Found"),
        _ => panic!("expected an API error"),
    }
}

#[test]
fn jira_error_responses_become_api_errors() {
    let body = ErrorBody::Messages(vec![Some("first".to_string()), None, Some("second".to_string())]);
    match JiraError::from_jira_response(400, &body) {
        JiraError::ApiError { message, error_codes } => {
            assert_eq!(message, "first, second");
            assert_eq!(error_codes, Some(vec![]));
        }
        _ => panic!("expected an API error"),
    }
    let body = ErrorBody::FieldErrors(vec![("summary".to_string(), "\"required\"".to_string())]);
    match JiraError::from_jira_response(400, &body) {
        JiraError::ApiError { message, error_codes } => {
            assert_eq!(message, "summary: \"required\"");
            assert_eq!(error_codes, Some(vec!["summary".to_string()]));
        }
        _ => panic!("expected an API error"),
    }
    match JiraError::from_jira_response(500, &ErrorBody::Other) {
        JiraError::ApiError { message, .. } => assert_eq!(message, "HTTP 500 Internal Server Error"),
        _ => panic!("expected an API error"),
    }
}

#[test]
fn error_messages() {
    assert_eq!(JiraError::api_error("boom").to_string(), "Jira API error: boom");
    assert_eq!(
        JiraError::validation_error("key", "bad").to_string(),
        "Validation error: key - bad"
    );
    assert_eq!(JiraError::auth_error("no").to_string(), "Authentication error: no");
    assert_eq!(JiraError::config_error("c").to_string(), "Configuration error: c");
    assert_eq!(JiraError::unknown_error("u").to_string(), "Unknown error: u");
    let e = JiraError::HttpError { status: 404, message: "gone".to_string() };
    assert_eq!(e.to_string(), "HTTP error: 404 Not Found - gone");
}

#[test]
fn transient_errors_are_recognised() {
    assert!(JiraError::HttpClientError { message: "x".to_string(), is_timeout: true }.is_transient());
    assert!(JiraError::api_error("Request timeout").is_transient());
    assert!(JiraError::api_error("rate limit exceeded").is_transient());
    assert!(!JiraError::api_error("not found").is_transient());
}

#[test]
fn urls_and_endpoints() {
    let url = build_url("https://jira.example.com/rest/api/2/", "issue/A-1", "API").ok().unwrap();
    assert_eq!(url, "https://jira.example.com/rest/api/2/issue/A-1");
    let url = build_url("https://jira.example.com/rest/api/2", "issue/ABC-1", "API").ok().unwrap();
    assert_eq!(url, "https://jira.example.com/rest/api/2/issue/ABC-1");
    let url = build_url("https://jira.example.com/rest/api/2", "myself", "API").ok().unwrap();
    assert_eq!(url, "https://jira.example.com/rest/api/2/myself");
    match build_url("not a url", "issue/A-1", "API") {
        Err(JiraError::ConfigError { message }) => assert!(message.starts_with("Invalid API base URL: ")),
        _ => panic!("expected a configuration error"),
    }
    assert_eq!(
        zephyr_api_base_url("https://jira.example.com/rest/api/2"),
        "https://jira.example.com/rest/api/2/rest/zapi/latest"
    );
    assert_eq!(endpoint_with("issue/", "A-1", "/comment"), "issue/A-1/comment");
    assert_eq!(
        encode_query(&vec![("jql".to_string(), "project = PROJ".to_string())]),
        "jql=project%20%3D%20PROJ"
    );
    assert_eq!(
        search_endpoint("project = PROJ", Some(0), None, Some(50)),
        "search?jql=project%20%3D%20PROJ&startAt=0&maxResults=50"
    );
    assert_eq!(
        test_case_search_endpoint("PROJ", None, Some(-1)),
        "testcase?projectKey=PROJ&maxResults=-1"
    );
}

#[test]
fn bulk_items_resolve_to_requests() {
    let items = bulk_items(
        vec!["A-1".to_string(), "A-2".to_string()],
        BulkOperationType::Transition,
        transition_data("31".to_string(), Some("done".to_string())),
    );
    assert_eq!(items.len(), 2);
    assert_eq!(items[1].issue_key, "A-2");
    match resolve_operation(&items[0]) {
        Ok(ResolvedOperation::Transition { transition_id, comment }) => {
            assert_eq!(transition_id, "31");
            assert_eq!(comment, Some("done".to_string()));
        }
        _ => panic!("expected a transition"),
    }
    let item = BulkOperationItem {
        issue_key: "A-3".to_string(),
        operation_type: BulkOperationType::AddComment,
        data: OperationData { has_fields: false, transition_id: None, comment: None, comment_body: None },
    };
    assert!(resolve_operation(&item).is_err());
    let item = BulkOperationItem {
        issue_key: "A-3".to_string(),
        operation_type: BulkOperationType::AddComment,
        data: comment_data("hi".to_string()),
    };
    assert!(matches!(resolve_operation(&item), Ok(ResolvedOperation::AddComment { body }) if body == "hi"));
}

fn update_items(keys: &[&str]) -> Vec<BulkOperationItem> {
    bulk_items(
        keys.iter().map(|k| k.to_string()).collect(),
        BulkOperationType::Update,
        OperationData { has_fields: true, transition_id: None, comment: None, comment_body: None },
    )
}

#[test]
fn bulk_run_attempts_retries_and_pauses() {
    let config = BulkOperationConfig {
        batch_size: Some(2),
        continue_on_error: true,
        rate_limit_ms: Some(100),
        max_retries: Some(1),
    };
    let items = update_items(&["A-1", "A-2", "A-3"]);
    let mut run = match BulkRun::start(&items, &config) {
        Ok(r) => r,
        Err(_) => panic!("start failed"),
    };
    assert!(matches!(run.next_step(), BulkStep::Attempt(0)));
    run.attempt_finished(Ok(()));
    assert!(matches!(run.next_step(), BulkStep::Wait(100)));
    assert!(matches!(run.next_step(), BulkStep::Attempt(1)));
    run.attempt_finished(Err(JiraError::api_error("rate limit")));
    assert!(matches!(run.next_step(), BulkStep::Wait(1000)));
    assert!(matches!(run.next_step(), BulkStep::Attempt(1)));
    run.attempt_finished(Err(JiraError::api_error("rate limit")));
    assert!(matches!(run.next_step(), BulkStep::Wait(100)));
    assert!(matches!(run.next_step(), BulkStep::Wait(100)));
    assert!(matches!(run.next_step(), BulkStep::Attempt(2)));
    run.attempt_finished(Ok(()));
    assert!(matches!(run.next_step(), BulkStep::Wait(100)));
    assert!(matches!(run.next_step(), BulkStep::Wait(100)));
    assert!(matches!(run.next_step(), BulkStep::Done));
    let summary = run.into_summary();
    assert_eq!(summary.total_operations, 3);
    assert_eq!(summary.successful_operations, 2);
    assert_eq!(summary.failed_operations, 1);
    assert_eq!(summary.results[1].error_message, Some("Jira API error: rate limit".to_string()));
    let keys: Vec<&str> = summary.results.iter().map(|r| r.issue_key.as_str()).collect();
    assert_eq!(keys, vec!["A-1", "A-2", "A-3"]);
}

#[test]
fn bulk_run_without_continue_on_error_stops_at_first_failure() {
    let config = BulkOperationConfig {
        batch_size: Some(10),
        continue_on_error: false,
        rate_limit_ms: Some(50),
        max_retries: Some(0),
    };
    let items = update_items(&["B-1", "B-2", "B-3"]);
    let mut run = match BulkRun::start(&items, &config) {
        Ok(r) => r,
        Err(_) => panic!("start failed"),
    };
    assert!(matches!(run.next_step(), BulkStep::Attempt(0)));
    run.attempt_finished(Ok(()));
    assert!(matches!(run.next_step(), BulkStep::Wait(50)));
    assert!(matches!(run.next_step(), BulkStep::Attempt(1)));
    run.attempt_finished(Err(JiraError::api_error("not found")));
    assert!(matches!(run.next_step(), BulkStep::Done));
    let summary = run.into_summary();
    assert_eq!(summary.total_operations, 2);
    assert_eq!(summary.successful_operations, 1);
    assert_eq!(summary.failed_operations, 1);
    assert_eq!(summary.results[1].issue_key, "B-2");
    assert!(!summary.results[1].success);
}

#[test]
fn bulk_run_refuses_too_many_items() {
    let keys: Vec<String> = (0..101).map(|i| format!("K-{i}")).collect();
    let many: Vec<&str> = keys.iter().map(|k| k.as_str()).collect();
    assert!(BulkRun::start(&update_items(&many), &BulkOperationConfig::default()).is_err());
    assert!(BulkRun::start(&update_items(&many[..100]), &BulkOperationConfig::default()).is_ok());
    let zero_batches = BulkOperationConfig { batch_size: Some(0), ..BulkOperationConfig::default() };
    match BulkRun::start(&update_items(&many), &zero_batches) {
        Err(JiraError::ApiError { message, error_codes: None }) => {
            assert_eq!(message, "Maximum 100 operations allowed per bulk request")
        }
        _ => panic!("expected the too-many-operations error"),
    }
}

#[test]
fn bulk_summary_counts_results() {
    let mut s = BulkOperationSummary::new();
    s.add_result(BulkOperationResult {
        issue_key: "A-1".to_string(),
        success: true,
        error_message: None,
        operation_type: BulkOperationType::Update,
    });
    s.add_result(BulkOperationResult {
        issue_key: "A-2".to_string(),
        success: false,
        error_message: Some("x".to_string()),
        operation_type: BulkOperationType::Update,
    });
    assert_eq!(s.total_operations, 2);
    assert_eq!(s.successful_operations, 1);
    assert_eq!(s.failed_operations, 1);
    assert_eq!(s.results.len(), 2);
}

#[test]
fn bulk_config_defaults() {
    let c = BulkOperationConfig::default();
    assert_eq!(c.batch_size, Some(10));
    assert!(c.continue_on_error);
    assert_eq!(c.rate_limit_ms, Some(100));
    assert_eq!(c.max_retries, Some(3));
}

#[test]
fn transition_properties_presets() {
    let p = TransitionProperties::new();
    assert_eq!(p.screen, ScreenProperty::NoScreen);
    assert_eq!(p.scope, ScopeProperty::Local);
    assert_eq!(p.availability, AvailabilityProperty::Unavailable);
    assert_eq!(p.conditionality, ConditionalityProperty::Unconditional);
    let p = TransitionProperties::with_all_properties();
    assert_eq!(p.screen, ScreenProperty::HasScreen);
    assert_eq!(p.scope, ScopeProperty::Global);
    assert_eq!(p.availability, AvailabilityProperty::Available);
    assert_eq!(p.conditionality, ConditionalityProperty::Conditional);
    assert_eq!(TransitionProperties::default(), TransitionProperties::new());
}

#[test]
fn clone_plan_copies_mapped_fields() {
    let fields = vec![
        "summary".to_string(),
        "priority".to_string(),
        "customfield_1".to_string(),
        "labels".to_string(),
    ];
    let mapping = JiraFieldMapping {
        copy_fields: vec![],
        exclude_fields: vec!["labels".to_string()],
        custom_field_mapping: Some(vec![("customfield_1".to_string(), "customfield_9".to_string())]),
    };
    let plan = plan_field_copies(&fields, &mapping, &vec!["priority".to_string()]);
    assert_eq!(
        plan,
        vec![
            ("summary".to_string(), "summary".to_string()),
            ("customfield_1".to_string(), "customfield_9".to_string()),
        ]
    );
}

#[test]
fn rate_limiter_lets_the_first_request_go() {
    let mut limiter = RateLimiter::new(std::time::Duration::from_secs(0));
    assert!(limiter.pause_needed().is_none());
    limiter.mark_request();
    let limiter = RateLimiter::new(std::time::Duration::from_secs(3600));
    assert!(limiter.pause_needed().is_none() || limiter.pause_needed().unwrap() <= std::time::Duration::from_secs(3600));
}

#[test]
fn clone_plan_never_writes_a_target_twice() {
    let fields = vec!["customfield_1".to_string(), "customfield_2".to_string()];
    let mapping = JiraFieldMapping {
        copy_fields: vec![],
        exclude_fields: vec![],
        custom_field_mapping: Some(vec![
            ("customfield_1".to_string(), "customfield_9".to_string()),
            ("customfield_2".to_string(), "customfield_9".to_string()),
        ]),
    };
    let plan = plan_field_copies(&fields, &mapping, &vec![]);
    assert_eq!(plan, vec![("customfield_1".to_string(), "customfield_9".to_string())]);
}
