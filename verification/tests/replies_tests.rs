use rust_jira_mcp::jira::requests::{
    agile_api_base_url, browse_base_url, endpoint_with_param, page_value, sprint_issues_endpoint,
};
use rust_jira_mcp::listings::{numbered_listing, test_case_entry, test_step_entry};
use rust_jira_mcp::replies::{
    attachment_line, board_sprint_line, comments_heading, issue_transitioned_text, label_updated_text,
    priority_line, sprint_text, test_cases_heading, test_step_created_text, work_log_deleted_text,
};
use rust_jira_mcp::text::replace_all;

#[test]
fn replace_all_replaces_every_occurrence_from_the_left() {
    assert_eq!(replace_all("aaaa", "aa", "b"), "bb");
    assert_eq!(replace_all("abcabc", "bc", ""), "aa");
    assert_eq!(replace_all("xyz", "q", "r"), "xyz");
    assert_eq!(replace_all("", "q", "r"), "");
    assert_eq!(replace_all("aaa", "aa", "X"), "Xa");
}

#[test]
fn base_urls_come_from_the_api_base() {
    assert_eq!(browse_base_url("https://jira.example.com/rest/api/2"), "https://jira.example.com");
    assert_eq!(
        agile_api_base_url("https://jira.example.com/rest/api/2"),
        "https://jira.example.com/rest/agile/1.0"
    );
    assert_eq!(browse_base_url("https://jira.example.com"), "https://jira.example.com");
}

#[test]
fn page_arguments_prefer_snake_case_and_clamp_to_zero() {
    assert_eq!(page_value(Some(Some(5)), Some(Some(9))), Some(5));
    assert_eq!(page_value(None, Some(Some(9))), Some(9));
    assert_eq!(page_value(Some(None), Some(Some(9))), None);
    assert_eq!(page_value(None, None), None);
    assert_eq!(page_value(Some(Some(i64::MAX)), None), Some(0));
    assert_eq!(page_value(None, Some(Some(-3))), Some(-3));
}

#[test]
fn sprint_and_query_endpoints() {
    assert_eq!(sprint_issues_endpoint(7, None, None), "sprint/7/issue");
    assert_eq!(sprint_issues_endpoint(7, Some(0), Some(50)), "sprint/7/issue?startAt=0&maxResults=50");
    assert_eq!(sprint_issues_endpoint(-1, None, Some(5)), "sprint/-1/issue?maxResults=5");
    assert_eq!(endpoint_with_param("cycle", "projectKey", "A B"), "cycle?projectKey=A%20B");
}

#[test]
fn tool_answers_follow_their_formats() {
    assert_eq!(issue_transitioned_text("A-1", "31"), "Issue A-1 transitioned successfully to transition 31");
    assert_eq!(comments_heading(2, "A-1"), "Found 2 comments for issue A-1\n\n");
    assert_eq!(label_updated_text("old", "new"), "Label updated successfully: old -> new");
    assert_eq!(work_log_deleted_text("10", "A-1"), "Work log 10 deleted successfully from issue A-1");
    assert_eq!(attachment_line("a.txt", "text/plain", 12), "• a.txt (text/plain) - 12 bytes\n");
    assert_eq!(priority_line("High", None), "• High - No description\n");
    assert_eq!(priority_line("High", Some("Urgent")), "• High - Urgent\n");
    assert_eq!(test_cases_heading(1, 30), "Found 1 test cases (showing 1 of 30 total)\n\n");
    assert_eq!(
        test_step_created_text("Open app", -2, None, Some("Works"), None),
        "Test step created successfully!\n\nStep: Open app\nOrder: -2\nData: None\nExpected Result: Works\nTest Case ID: Unknown"
    );
}

#[test]
fn sprint_texts_link_to_the_board() {
    assert_eq!(
        sprint_text(5, "S1", "Active", Some("2024-01-01"), None, None, "https://j", 3),
        "Sprint: 5\nName: S1\nState: Active\nStart Date: 2024-01-01\nEnd Date: Not set\nGoal: No goal set\nURL: https://j/secure/RapidBoard.jspa?rapidView=3&view=planning.nodetail&selectedIssue=5"
    );
    assert_eq!(
        board_sprint_line(5, "S1", "Future", None, None, Some("Ship"), "https://j", 3),
        "• 5 - S1\n  State: Future\n  Start: Not set\n  End: Not set\n  Goal: Ship\n  URL: https://j/secure/RapidBoard.jspa?rapidView=3&view=planning.nodetail&selectedIssue=5\n"
    );
}

#[test]
fn numbered_lists_number_their_entries() {
    let steps = vec![test_step_entry("Open", 1, Some("x"), None), test_step_entry("Close", 2, None, None)];
    assert_eq!(
        numbered_listing("Steps:\n\n", "None found.", &steps),
        "Steps:\n\n1. Open\n   Order: 1\n   Data: x\n   Expected Result: None\n\n2. Close\n   Order: 2\n   Data: None\n   Expected Result: None\n\n"
    );
    assert_eq!(numbered_listing("Steps:\n\n", "None found.", &vec![]), "Steps:\n\nNone found.");
    let case = test_case_entry(None, "Login", "P", "Test", None, Some("High"));
    assert_eq!(
        numbered_listing("", "", &vec![case]),
        "1. No Key - Login\n   Project: P\n   Type: Test\n   Status: Unknown\n   Priority: High\n\n"
    );
}
