use rust_jira_mcp::error::JiraError;
use rust_jira_mcp::listings::{
    created_issue_text, issue_details_text, search_results_text, sprint_issues_text, IssueLine,
};
use rust_jira_mcp::sprints::{rapid_view_id_arg, sprint_id_arg, sprint_issue_keys};
use rust_jira_mcp::tools::{advertised_tools, find_tool};

fn api_message(e: JiraError) -> String {
    match e {
        JiraError::ApiError { message, error_codes: None } => message,
        _ => panic!("expected an API error"),
    }
}

#[test]
fn sprint_tools_are_advertised_and_handled() {
    for name in [
        "get_sprint",
        "create_sprint",
        "add_issues_to_sprint",
        "get_sprint_issues",
        "start_sprint",
        "close_sprint",
        "get_board_sprints",
    ] {
        assert!(advertised_tools().contains(&name));
        assert!(find_tool(name).is_ok());
    }
}

#[test]
fn sprint_id_is_checked() {
    assert_eq!(sprint_id_arg(Some(42)).ok(), Some(42));
    assert_eq!(sprint_id_arg(Some(-7)).ok(), Some(-7));
    assert_eq!(api_message(sprint_id_arg(None).unwrap_err()), "Missing required parameter: sprint_id");
    assert_eq!(
        api_message(sprint_id_arg(Some(i64::from(i32::MAX) + 1)).unwrap_err()),
        "Sprint ID too large for i32"
    );
    assert_eq!(sprint_id_arg(Some(i64::from(i32::MIN))).ok(), Some(i32::MIN));
}

#[test]
fn rapid_view_id_is_checked() {
    assert_eq!(rapid_view_id_arg(Some(3)).ok(), Some(3));
    assert_eq!(api_message(rapid_view_id_arg(None).unwrap_err()), "Missing required parameter: rapid_view_id");
    assert_eq!(
        api_message(rapid_view_id_arg(Some(i64::MAX)).unwrap_err()),
        "Rapid view ID too large for i32"
    );
}

#[test]
fn sprint_issue_keys_must_be_given() {
    assert_eq!(api_message(sprint_issue_keys(None).unwrap_err()), "Missing required parameter: issues");
    assert_eq!(api_message(sprint_issue_keys(Some(vec![])).unwrap_err()), "No valid issue keys provided");
    assert_eq!(
        sprint_issue_keys(Some(vec!["A-1".to_string(), "A-2".to_string()])).ok(),
        Some(vec!["A-1".to_string(), "A-2".to_string()])
    );
}

#[test]
fn sprint_issues_are_listed() {
    let issues = vec![
        IssueLine {
            key: "PROJ-1".to_string(),
            summary: Some("Fix login".to_string()),
            status: Some("In Progress".to_string()),
            assignee: Some("Ann".to_string()),
        },
        IssueLine { key: "PROJ-2".to_string(), summary: None, status: None, assignee: None },
    ];
    let text = sprint_issues_text(12, 40, &issues, "https://jira.example.com");
    assert_eq!(text.len(), 3);
    assert_eq!(text[0], "Found 2 issues in sprint 12 (showing 2 of 40 total)\n\n");
    assert_eq!(
        text[1],
        "• PROJ-1 - Fix login\n  Status: In Progress\n  Assignee: Ann\n  URL: https://jira.example.com/browse/PROJ-1\n"
    );
    assert_eq!(
        text[2],
        "• PROJ-2 - No summary\n  Status: Unknown status\n  Assignee: Unassigned\n  URL: https://jira.example.com/browse/PROJ-2\n"
    );
    let none = sprint_issues_text(-1, 0, &vec![], "b");
    assert_eq!(none, vec!["Found 0 issues in sprint -1 (showing 0 of 0 total)\n\n".to_string()]);
}

#[test]
fn search_results_are_listed() {
    let issues = vec![
        IssueLine {
            key: "ABC-7".to_string(),
            summary: Some("Broken build".to_string()),
            status: Some("Open".to_string()),
            assignee: None,
        },
        IssueLine { key: "ABC-8".to_string(), summary: None, status: None, assignee: Some("Bo".to_string()) },
    ];
    let text = search_results_text(25, &issues);
    assert_eq!(
        text,
        vec![
            "Found 2 issues (showing 2 of 25 total)\n\n".to_string(),
            "• ABC-7 - Broken build (Open)\n".to_string(),
            "• ABC-8 - No summary (Unknown status)\n".to_string(),
        ]
    );
}

#[test]
fn single_issues_are_described() {
    let issue = IssueLine {
        key: "ABC-9".to_string(),
        summary: Some("Crash on start".to_string()),
        status: None,
        assignee: Some("Cy".to_string()),
    };
    assert_eq!(
        issue_details_text(&issue, "https://jira.example.com"),
        "Issue: ABC-9\nSummary: Crash on start\nStatus: Unknown status\nAssignee: Cy\nURL: https://jira.example.com/browse/ABC-9"
    );
    assert_eq!(
        created_issue_text("ABC-10", "New thing", "https://jira.example.com"),
        "Issue created successfully: ABC-10 - New thing\nURL: https://jira.example.com/browse/ABC-10"
    );
}
