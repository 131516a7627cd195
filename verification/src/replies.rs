//! The answers of the tools: what each one says after it did its work,
//! and the headings and lines of the lists it shows.
use crate::text::{append_decimal, append_signed_decimal, append_str, decimal, signed_decimal};
use vstd::prelude::*;

verus! {

/// The text of an optional value, or its default.
pub open spec fn text_or(o: Option<&str>, default: Seq<char>) -> Seq<char> {
    match o {
        Some(s) => s@,
        None => default,
    }
}

pub(crate) fn append_or(out: &mut String, o: Option<&str>, default: &str)
    ensures
        final(out)@ == old(out)@ + text_or(o, default@),
{
    match o {
        Some(s) => append_str(out, s),
        None => append_str(out, default),
    }
}

/// The answer to an updated issue.
pub fn issue_updated_text(issue_key: &str) -> (r: String)
    ensures
        r@ == "Issue "@ + issue_key@ + " updated successfully"@,
{
    let mut out = String::new();
    append_str(&mut out, "Issue ");
    assert(out@ =~= "Issue "@);
    append_str(&mut out, issue_key);
    append_str(&mut out, " updated successfully");
    out
}

/// The answer to an issue moved through a transition.
pub fn issue_transitioned_text(issue_key: &str, transition_id: &str) -> (r: String)
    ensures
        r@ == "Issue "@ + issue_key@ + " transitioned successfully to transition "@ + transition_id@,
{
    let mut out = String::new();
    append_str(&mut out, "Issue ");
    assert(out@ =~= "Issue "@);
    append_str(&mut out, issue_key);
    append_str(&mut out, " transitioned successfully to transition ");
    append_str(&mut out, transition_id);
    out
}

/// The heading of an issue's comments.
pub fn comments_heading(count: u64, issue_key: &str) -> (r: String)
    ensures
        r@ == "Found "@ + decimal(count as nat) + " comments for issue "@ + issue_key@ + "\n\n"@,
{
    let mut out = String::new();
    append_str(&mut out, "Found ");
    assert(out@ =~= "Found "@);
    append_decimal(&mut out, count);
    append_str(&mut out, " comments for issue ");
    append_str(&mut out, issue_key);
    append_str(&mut out, "\n\n");
    out
}

/// One comment of an issue: its id, author, date and body.
pub fn comment_line(id: &str, author: &str, created: &str, body: &str) -> (r: String)
    ensures
        r@ == "• "@ + id@ + " by "@ + author@ + " on "@ + created@ + "\n"@ + body@ + "\n"@,
{
    let mut out = String::new();
    append_str(&mut out, "• ");
    assert(out@ =~= "• "@);
    append_str(&mut out, id);
    append_str(&mut out, " by ");
    append_str(&mut out, author);
    append_str(&mut out, " on ");
    append_str(&mut out, created);
    append_str(&mut out, "\n");
    append_str(&mut out, body);
    append_str(&mut out, "\n");
    out
}

/// The answer to an added comment.
pub fn comment_added_text(issue_key: &str, id: &str, author: &str, created: &str) -> (r: String)
    ensures
        r@ == "Comment added successfully to issue "@ + issue_key@ + "\nComment ID: "@ + id@ + "\nAuthor: "@ + author@ + "\nCreated: "@ + created@,
{
    let mut out = String::new();
    append_str(&mut out, "Comment added successfully to issue ");
    assert(out@ =~= "Comment added successfully to issue "@);
    append_str(&mut out, issue_key);
    append_str(&mut out, "\nComment ID: ");
    append_str(&mut out, id);
    append_str(&mut out, "\nAuthor: ");
    append_str(&mut out, author);
    append_str(&mut out, "\nCreated: ");
    append_str(&mut out, created);
    out
}

/// The heading of an issue's transitions.
pub fn transitions_heading(count: u64, issue_key: &str) -> (r: String)
    ensures
        r@ == "Found "@ + decimal(count as nat) + " transitions for issue "@ + issue_key@ + "\n\n"@,
{
    let mut out = String::new();
    append_str(&mut out, "Found ");
    assert(out@ =~= "Found "@);
    append_decimal(&mut out, count);
    append_str(&mut out, " transitions for issue ");
    append_str(&mut out, issue_key);
    append_str(&mut out, "\n\n");
    out
}

/// One transition: its name, the status it leads to and its id.
pub fn transition_line(name: &str, to_status: &str, id: &str) -> (r: String)
    ensures
        r@ == "• "@ + name@ + " - "@ + to_status@ + " (ID: "@ + id@ + ")\n"@,
{
    let mut out = String::new();
    append_str(&mut out, "• ");
    assert(out@ =~= "• "@);
    append_str(&mut out, name);
    append_str(&mut out, " - ");
    append_str(&mut out, to_status);
    append_str(&mut out, " (ID: ");
    append_str(&mut out, id);
    append_str(&mut out, ")\n");
    out
}

/// The number of an issue's watchers.
pub fn watchers_text(issue_key: &str, count: u64) -> (r: String)
    ensures
        r@ == "Issue "@ + issue_key@ + " has "@ + decimal(count as nat) + " watchers\n"@,
{
    let mut out = String::new();
    append_str(&mut out, "Issue ");
    assert(out@ =~= "Issue "@);
    append_str(&mut out, issue_key);
    append_str(&mut out, " has ");
    append_decimal(&mut out, count);
    append_str(&mut out, " watchers\n");
    out
}

/// The answer to an added watcher.
pub fn watcher_added_text(account_id: &str, issue_key: &str) -> (r: String)
    ensures
        r@ == "Watcher "@ + account_id@ + " added successfully to issue "@ + issue_key@,
{
    let mut out = String::new();
    append_str(&mut out, "Watcher ");
    assert(out@ =~= "Watcher "@);
    append_str(&mut out, account_id);
    append_str(&mut out, " added successfully to issue ");
    append_str(&mut out, issue_key);
    out
}

/// The answer to a removed watcher.
pub fn watcher_removed_text(account_id: &str, issue_key: &str) -> (r: String)
    ensures
        r@ == "Watcher "@ + account_id@ + " removed successfully from issue "@ + issue_key@,
{
    let mut out = String::new();
    append_str(&mut out, "Watcher ");
    assert(out@ =~= "Watcher "@);
    append_str(&mut out, account_id);
    append_str(&mut out, " removed successfully from issue ");
    append_str(&mut out, issue_key);
    out
}

/// The heading of the labels.
pub fn labels_heading(count: u64) -> (r: String)
    ensures
        r@ == "Found "@ + decimal(count as nat) + " labels:\n\n"@,
{
    let mut out = String::new();
    append_str(&mut out, "Found ");
    assert(out@ =~= "Found "@);
    append_decimal(&mut out, count);
    append_str(&mut out, " labels:\n\n");
    out
}

/// One label.
pub fn label_line(name: &str) -> (r: String)
    ensures
        r@ == "• "@ + name@ + "\n"@,
{
    let mut out = String::new();
    append_str(&mut out, "• ");
    assert(out@ =~= "• "@);
    append_str(&mut out, name);
    append_str(&mut out, "\n");
    out
}

/// The answer to a created label.
pub fn label_created_text(name: &str) -> (r: String)
    ensures
        r@ == "Label created successfully: "@ + name@,
{
    let mut out = String::new();
    append_str(&mut out, "Label created successfully: ");
    assert(out@ =~= "Label created successfully: "@);
    append_str(&mut out, name);
    out
}

/// The answer to a renamed label.
pub fn label_updated_text(name: &str, new_name: &str) -> (r: String)
    ensures
        r@ == "Label updated successfully: "@ + name@ + " -> "@ + new_name@,
{
    let mut out = String::new();
    append_str(&mut out, "Label updated successfully: ");
    assert(out@ =~= "Label updated successfully: "@);
    append_str(&mut out, name);
    append_str(&mut out, " -> ");
    append_str(&mut out, new_name);
    out
}

/// The answer to a deleted label.
pub fn label_deleted_text(name: &str) -> (r: String)
    ensures
        r@ == "Label deleted successfully: "@ + name@,
{
    let mut out = String::new();
    append_str(&mut out, "Label deleted successfully: ");
    assert(out@ =~= "Label deleted successfully: "@);
    append_str(&mut out, name);
    out
}

/// The answer to a created component.
pub fn component_created_text(name: &str, project: &str) -> (r: String)
    ensures
        r@ == "Component created successfully: "@ + name@ + " for project "@ + project@,
{
    let mut out = String::new();
    append_str(&mut out, "Component created successfully: ");
    assert(out@ =~= "Component created successfully: "@);
    append_str(&mut out, name);
    append_str(&mut out, " for project ");
    append_str(&mut out, project);
    out
}

/// The answer to an updated component.
pub fn component_updated_text(component_id: &str) -> (r: String)
    ensures
        r@ == "Component updated successfully: "@ + component_id@,
{
    let mut out = String::new();
    append_str(&mut out, "Component updated successfully: ");
    assert(out@ =~= "Component updated successfully: "@);
    append_str(&mut out, component_id);
    out
}

/// The answer to a deleted component.
pub fn component_deleted_text(component_id: &str) -> (r: String)
    ensures
        r@ == "Component deleted successfully: "@ + component_id@,
{
    let mut out = String::new();
    append_str(&mut out, "Component deleted successfully: ");
    assert(out@ =~= "Component deleted successfully: "@);
    append_str(&mut out, component_id);
    out
}

/// The heading of an issue's work logs.
pub fn work_logs_heading(count: u64, issue_key: &str) -> (r: String)
    ensures
        r@ == "Found "@ + decimal(count as nat) + " work logs for issue "@ + issue_key@ + "\n\n"@,
{
    let mut out = String::new();
    append_str(&mut out, "Found ");
    assert(out@ =~= "Found "@);
    append_decimal(&mut out, count);
    append_str(&mut out, " work logs for issue ");
    append_str(&mut out, issue_key);
    append_str(&mut out, "\n\n");
    out
}

/// One work log: its id, the time spent, its author and date.
pub fn work_log_line(id: &str, time_spent: &str, author: &str, created: &str) -> (r: String)
    ensures
        r@ == "• "@ + id@ + " - "@ + time_spent@ + " by "@ + author@ + " on "@ + created@ + "\n"@,
{
    let mut out = String::new();
    append_str(&mut out, "• ");
    assert(out@ =~= "• "@);
    append_str(&mut out, id);
    append_str(&mut out, " - ");
    append_str(&mut out, time_spent);
    append_str(&mut out, " by ");
    append_str(&mut out, author);
    append_str(&mut out, " on ");
    append_str(&mut out, created);
    append_str(&mut out, "\n");
    out
}

/// The answer to an added work log.
pub fn work_log_added_text(issue_key: &str, id: &str, time_spent: &str, author: &str) -> (r: String)
    ensures
        r@ == "Work log added successfully to issue "@ + issue_key@ + "\nWork log ID: "@ + id@ + "\nTime spent: "@ + time_spent@ + "\nAuthor: "@ + author@,
{
    let mut out = String::new();
    append_str(&mut out, "Work log added successfully to issue ");
    assert(out@ =~= "Work log added successfully to issue "@);
    append_str(&mut out, issue_key);
    append_str(&mut out, "\nWork log ID: ");
    append_str(&mut out, id);
    append_str(&mut out, "\nTime spent: ");
    append_str(&mut out, time_spent);
    append_str(&mut out, "\nAuthor: ");
    append_str(&mut out, author);
    out
}

/// The answer to an updated work log.
pub fn work_log_updated_text(work_log_id: &str, issue_key: &str) -> (r: String)
    ensures
        r@ == "Work log "@ + work_log_id@ + " updated successfully for issue "@ + issue_key@,
{
    let mut out = String::new();
    append_str(&mut out, "Work log ");
    assert(out@ =~= "Work log "@);
    append_str(&mut out, work_log_id);
    append_str(&mut out, " updated successfully for issue ");
    append_str(&mut out, issue_key);
    out
}

/// The answer to a deleted work log.
pub fn work_log_deleted_text(work_log_id: &str, issue_key: &str) -> (r: String)
    ensures
        r@ == "Work log "@ + work_log_id@ + " deleted successfully from issue "@ + issue_key@,
{
    let mut out = String::new();
    append_str(&mut out, "Work log ");
    assert(out@ =~= "Work log "@);
    append_str(&mut out, work_log_id);
    append_str(&mut out, " deleted successfully from issue ");
    append_str(&mut out, issue_key);
    out
}

/// The heading of an issue's attachments.
pub fn attachments_heading(count: u64, issue_key: &str) -> (r: String)
    ensures
        r@ == "Found "@ + decimal(count as nat) + " attachments for issue "@ + issue_key@ + "\n\n"@,
{
    let mut out = String::new();
    append_str(&mut out, "Found ");
    assert(out@ =~= "Found "@);
    append_decimal(&mut out, count);
    append_str(&mut out, " attachments for issue ");
    append_str(&mut out, issue_key);
    append_str(&mut out, "\n\n");
    out
}

/// One attachment: its file name, type and size.
pub fn attachment_line(filename: &str, mime_type: &str, size: u64) -> (r: String)
    ensures
        r@ == "• "@ + filename@ + " ("@ + mime_type@ + ") - "@ + decimal(size as nat) + " bytes\n"@,
{
    let mut out = String::new();
    append_str(&mut out, "• ");
    assert(out@ =~= "• "@);
    append_str(&mut out, filename);
    append_str(&mut out, " (");
    append_str(&mut out, mime_type);
    append_str(&mut out, ") - ");
    append_decimal(&mut out, size);
    append_str(&mut out, " bytes\n");
    out
}

/// The answer to uploaded attachments.
pub fn attachments_uploaded_text(count: u64, issue_key: &str) -> (r: String)
    ensures
        r@ == "Successfully uploaded "@ + decimal(count as nat) + " attachment(s) to issue "@ + issue_key@,
{
    let mut out = String::new();
    append_str(&mut out, "Successfully uploaded ");
    assert(out@ =~= "Successfully uploaded "@);
    append_decimal(&mut out, count);
    append_str(&mut out, " attachment(s) to issue ");
    append_str(&mut out, issue_key);
    out
}

/// The answer to a deleted attachment.
pub fn attachment_deleted_text(attachment_id: &str) -> (r: String)
    ensures
        r@ == "Attachment "@ + attachment_id@ + " deleted successfully"@,
{
    let mut out = String::new();
    append_str(&mut out, "Attachment ");
    assert(out@ =~= "Attachment "@);
    append_str(&mut out, attachment_id);
    append_str(&mut out, " deleted successfully");
    out
}

/// The answer to a downloaded attachment: its size and its content in Base64.
pub fn attachment_downloaded_text(attachment_id: &str, size: u64, content_base64: &str) -> (r: String)
    ensures
        r@ == "Attachment "@ + attachment_id@ + " downloaded successfully ("@ + decimal(size as nat) + " bytes)\nBase64 content: "@ + content_base64@,
{
    let mut out = String::new();
    append_str(&mut out, "Attachment ");
    assert(out@ =~= "Attachment "@);
    append_str(&mut out, attachment_id);
    append_str(&mut out, " downloaded successfully (");
    append_decimal(&mut out, size);
    append_str(&mut out, " bytes)\nBase64 content: ");
    append_str(&mut out, content_base64);
    out
}

/// The heading of an issue's links.
pub fn links_heading(count: u64, issue_key: &str) -> (r: String)
    ensures
        r@ == "Found "@ + decimal(count as nat) + " links for issue "@ + issue_key@ + "\n\n"@,
{
    let mut out = String::new();
    append_str(&mut out, "Found ");
    assert(out@ =~= "Found "@);
    append_decimal(&mut out, count);
    append_str(&mut out, " links for issue ");
    append_str(&mut out, issue_key);
    append_str(&mut out, "\n\n");
    out
}

/// One link: its id and the name of its type.
pub fn link_line(id: &str, link_type: &str) -> (r: String)
    ensures
        r@ == "• "@ + id@ + " - "@ + link_type@ + "\n"@,
{
    let mut out = String::new();
    append_str(&mut out, "• ");
    assert(out@ =~= "• "@);
    append_str(&mut out, id);
    append_str(&mut out, " - ");
    append_str(&mut out, link_type);
    append_str(&mut out, "\n");
    out
}

/// The answer to a created link.
pub fn link_created_text(inward_issue: &str, outward_issue: &str, link_type: &str) -> (r: String)
    ensures
        r@ == "Link created successfully between "@ + inward_issue@ + " and "@ + outward_issue@ + " with type "@ + link_type@,
{
    let mut out = String::new();
    append_str(&mut out, "Link created successfully between ");
    assert(out@ =~= "Link created successfully between "@);
    append_str(&mut out, inward_issue);
    append_str(&mut out, " and ");
    append_str(&mut out, outward_issue);
    append_str(&mut out, " with type ");
    append_str(&mut out, link_type);
    out
}

/// The answer to a deleted link.
pub fn link_deleted_text(link_id: &str) -> (r: String)
    ensures
        r@ == "Issue link deleted successfully: "@ + link_id@,
{
    let mut out = String::new();
    append_str(&mut out, "Issue link deleted successfully: ");
    assert(out@ =~= "Issue link deleted successfully: "@);
    append_str(&mut out, link_id);
    out
}

/// A project's configuration, as pretty-printed JSON under a heading.
pub fn project_configuration_text(project_key: &str, pretty_json: &str) -> (r: String)
    ensures
        r@ == "Project configuration for "@ + project_key@ + ":\n"@ + pretty_json@,
{
    let mut out = String::new();
    append_str(&mut out, "Project configuration for ");
    assert(out@ =~= "Project configuration for "@);
    append_str(&mut out, project_key);
    append_str(&mut out, ":\n");
    append_str(&mut out, pretty_json);
    out
}

/// A project's metadata, as pretty-printed JSON under a heading.
pub fn project_metadata_text(project_key: &str, pretty_json: &str) -> (r: String)
    ensures
        r@ == "Project metadata for "@ + project_key@ + ":\n"@ + pretty_json@,
{
    let mut out = String::new();
    append_str(&mut out, "Project metadata for ");
    assert(out@ =~= "Project metadata for "@);
    append_str(&mut out, project_key);
    append_str(&mut out, ":\n");
    append_str(&mut out, pretty_json);
    out
}

/// An issue type's metadata, as pretty-printed JSON under a heading.
pub fn issue_type_metadata_text(issue_type_id: &str, pretty_json: &str) -> (r: String)
    ensures
        r@ == "Issue type metadata for "@ + issue_type_id@ + ":\n"@ + pretty_json@,
{
    let mut out = String::new();
    append_str(&mut out, "Issue type metadata for ");
    assert(out@ =~= "Issue type metadata for "@);
    append_str(&mut out, issue_type_id);
    append_str(&mut out, ":\n");
    append_str(&mut out, pretty_json);
    out
}

/// One priority or status: its name and description.
pub fn priority_line(name: &str, description: Option<&str>) -> (r: String)
    ensures
        r@ == "• "@ + name@ + " - "@ + text_or(description, "No description"@) + "\n"@,
{
    let mut out = String::new();
    append_str(&mut out, "• ");
    assert(out@ =~= "• "@);
    append_str(&mut out, name);
    append_str(&mut out, " - ");
    append_or(&mut out, description, "No description");
    append_str(&mut out, "\n");
    out
}

/// The heading of the custom fields.
pub fn custom_fields_heading(count: u64) -> (r: String)
    ensures
        r@ == "Found "@ + decimal(count as nat) + " custom fields:\n\n"@,
{
    let mut out = String::new();
    append_str(&mut out, "Found ");
    assert(out@ =~= "Found "@);
    append_decimal(&mut out, count);
    append_str(&mut out, " custom fields:\n\n");
    out
}

/// One custom field: its name, id and type.
pub fn custom_field_line(name: Option<&str>, id: Option<&str>, field_type: Option<&str>) -> (r: String)
    ensures
        r@ == "• "@ + text_or(name, "Unknown"@) + " ("@ + text_or(id, "Unknown"@) + "): "@ + text_or(field_type, "Unknown"@) + "\n"@,
{
    let mut out = String::new();
    append_str(&mut out, "• ");
    assert(out@ =~= "• "@);
    append_or(&mut out, name, "Unknown");
    append_str(&mut out, " (");
    append_or(&mut out, id, "Unknown");
    append_str(&mut out, "): ");
    append_or(&mut out, field_type, "Unknown");
    append_str(&mut out, "\n");
    out
}

/// The heading of a project's components.
pub fn components_heading(count: u64, project_key: &str) -> (r: String)
    ensures
        r@ == "Found "@ + decimal(count as nat) + " components for project "@ + project_key@ + ":\n\n"@,
{
    let mut out = String::new();
    append_str(&mut out, "Found ");
    assert(out@ =~= "Found "@);
    append_decimal(&mut out, count);
    append_str(&mut out, " components for project ");
    append_str(&mut out, project_key);
    append_str(&mut out, ":\n\n");
    out
}

/// The heading of a project's issue types.
pub fn issue_types_heading(count: u64, project_key: &str) -> (r: String)
    ensures
        r@ == "Found "@ + decimal(count as nat) + " issue types for project "@ + project_key@ + ":\n\n"@,
{
    let mut out = String::new();
    append_str(&mut out, "Found ");
    assert(out@ =~= "Found "@);
    append_decimal(&mut out, count);
    append_str(&mut out, " issue types for project ");
    append_str(&mut out, project_key);
    append_str(&mut out, ":\n\n");
    out
}

/// One component or issue type: its name and description.
pub fn component_line(name: &str, description: Option<&str>) -> (r: String)
    ensures
        r@ == "• "@ + name@ + " - "@ + text_or(description, ""@) + "\n"@,
{
    let mut out = String::new();
    append_str(&mut out, "• ");
    assert(out@ =~= "• "@);
    append_str(&mut out, name);
    append_str(&mut out, " - ");
    append_or(&mut out, description, "");
    append_str(&mut out, "\n");
    out
}

/// The heading of a test case's steps.
pub fn test_steps_heading(test_case_id: &str) -> (r: String)
    ensures
        r@ == "Test Steps for Test Case "@ + test_case_id@ + ":\n\n"@,
{
    let mut out = String::new();
    append_str(&mut out, "Test Steps for Test Case ");
    assert(out@ =~= "Test Steps for Test Case "@);
    append_str(&mut out, test_case_id);
    append_str(&mut out, ":\n\n");
    out
}

/// The answer to a created test step.
pub fn test_step_created_text(step: &str, order: i64, data: Option<&str>, result: Option<&str>, test_case_id: Option<&str>) -> (r: String)
    ensures
        r@ == "Test step created successfully!\n\nStep: "@ + step@ + "\nOrder: "@ + signed_decimal(order as int) + "\nData: "@ + text_or(data, "None"@) + "\nExpected Result: "@ + text_or(result, "None"@) + "\nTest Case ID: "@ + text_or(test_case_id, "Unknown"@),
{
    let mut out = String::new();
    append_str(&mut out, "Test step created successfully!\n\nStep: ");
    assert(out@ =~= "Test step created successfully!\n\nStep: "@);
    append_str(&mut out, step);
    append_str(&mut out, "\nOrder: ");
    append_signed_decimal(&mut out, order);
    append_str(&mut out, "\nData: ");
    append_or(&mut out, data, "None");
    append_str(&mut out, "\nExpected Result: ");
    append_or(&mut out, result, "None");
    append_str(&mut out, "\nTest Case ID: ");
    append_or(&mut out, test_case_id, "Unknown");
    out
}

/// The answer to an updated test step.
pub fn test_step_updated_text(step: &str, order: i64, data: Option<&str>, result: Option<&str>) -> (r: String)
    ensures
        r@ == "Test step updated successfully!\n\nStep: "@ + step@ + "\nOrder: "@ + signed_decimal(order as int) + "\nData: "@ + text_or(data, "None"@) + "\nExpected Result: "@ + text_or(result, "None"@),
{
    let mut out = String::new();
    append_str(&mut out, "Test step updated successfully!\n\nStep: ");
    assert(out@ =~= "Test step updated successfully!\n\nStep: "@);
    append_str(&mut out, step);
    append_str(&mut out, "\nOrder: ");
    append_signed_decimal(&mut out, order);
    append_str(&mut out, "\nData: ");
    append_or(&mut out, data, "None");
    append_str(&mut out, "\nExpected Result: ");
    append_or(&mut out, result, "None");
    out
}

/// The answer to a deleted test step.
pub fn test_step_deleted_text(step_id: &str, test_case_id: &str) -> (r: String)
    ensures
        r@ == "Test step "@ + step_id@ + " deleted successfully from test case "@ + test_case_id@ + "!"@,
{
    let mut out = String::new();
    append_str(&mut out, "Test step ");
    assert(out@ =~= "Test step "@);
    append_str(&mut out, step_id);
    append_str(&mut out, " deleted successfully from test case ");
    append_str(&mut out, test_case_id);
    append_str(&mut out, "!");
    out
}

/// The heading of the test cases found.
pub fn test_cases_heading(shown: u64, total: u64) -> (r: String)
    ensures
        r@ == "Found "@ + decimal(shown as nat) + " test cases (showing "@ + decimal(shown as nat) + " of "@ + decimal(total as nat) + " total)\n\n"@,
{
    let mut out = String::new();
    append_str(&mut out, "Found ");
    assert(out@ =~= "Found "@);
    append_decimal(&mut out, shown);
    append_str(&mut out, " test cases (showing ");
    append_decimal(&mut out, shown);
    append_str(&mut out, " of ");
    append_decimal(&mut out, total);
    append_str(&mut out, " total)\n\n");
    out
}

/// The answer to a created test case.
pub fn test_case_created_text(name: &str, key: Option<&str>, project_key: &str, issue_type: &str, priority: Option<&str>, assignee: Option<&str>) -> (r: String)
    ensures
        r@ == "Test case created successfully!\n\nName: "@ + name@ + "\nKey: "@ + text_or(key, "No Key"@) + "\nProject: "@ + project_key@ + "\nType: "@ + issue_type@ + "\nPriority: "@ + text_or(priority, "None"@) + "\nAssignee: "@ + text_or(assignee, "Unassigned"@),
{
    let mut out = String::new();
    append_str(&mut out, "Test case created successfully!\n\nName: ");
    assert(out@ =~= "Test case created successfully!\n\nName: "@);
    append_str(&mut out, name);
    append_str(&mut out, "\nKey: ");
    append_or(&mut out, key, "No Key");
    append_str(&mut out, "\nProject: ");
    append_str(&mut out, project_key);
    append_str(&mut out, "\nType: ");
    append_str(&mut out, issue_type);
    append_str(&mut out, "\nPriority: ");
    append_or(&mut out, priority, "None");
    append_str(&mut out, "\nAssignee: ");
    append_or(&mut out, assignee, "Unassigned");
    out
}

/// The heading of a test case's executions.
pub fn test_executions_heading(test_case_id: &str) -> (r: String)
    ensures
        r@ == "Test Executions for Test Case "@ + test_case_id@ + ":\n\n"@,
{
    let mut out = String::new();
    append_str(&mut out, "Test Executions for Test Case ");
    assert(out@ =~= "Test Executions for Test Case "@);
    append_str(&mut out, test_case_id);
    append_str(&mut out, ":\n\n");
    out
}

/// The answer to a created test execution.
pub fn test_execution_created_text(test_case_id: &str, id: Option<&str>, status: &str, project_id: &str, assignee: Option<&str>, comment: Option<&str>) -> (r: String)
    ensures
        r@ == "Test execution created successfully!\n\nTest Case ID: "@ + test_case_id@ + "\nExecution ID: "@ + text_or(id, "Unknown"@) + "\nStatus: "@ + status@ + "\nProject ID: "@ + project_id@ + "\nAssignee: "@ + text_or(assignee, "Unassigned"@) + "\nComment: "@ + text_or(comment, "None"@),
{
    let mut out = String::new();
    append_str(&mut out, "Test execution created successfully!\n\nTest Case ID: ");
    assert(out@ =~= "Test execution created successfully!\n\nTest Case ID: "@);
    append_str(&mut out, test_case_id);
    append_str(&mut out, "\nExecution ID: ");
    append_or(&mut out, id, "Unknown");
    append_str(&mut out, "\nStatus: ");
    append_str(&mut out, status);
    append_str(&mut out, "\nProject ID: ");
    append_str(&mut out, project_id);
    append_str(&mut out, "\nAssignee: ");
    append_or(&mut out, assignee, "Unassigned");
    append_str(&mut out, "\nComment: ");
    append_or(&mut out, comment, "None");
    out
}

/// The heading of a project's test cycles.
pub fn test_cycles_heading(project_key: &str) -> (r: String)
    ensures
        r@ == "Test Cycles for Project "@ + project_key@ + ":\n\n"@,
{
    let mut out = String::new();
    append_str(&mut out, "Test Cycles for Project ");
    assert(out@ =~= "Test Cycles for Project "@);
    append_str(&mut out, project_key);
    append_str(&mut out, ":\n\n");
    out
}

/// The heading of a project's test plans.
pub fn test_plans_heading(project_key: &str) -> (r: String)
    ensures
        r@ == "Test Plans for Project "@ + project_key@ + ":\n\n"@,
{
    let mut out = String::new();
    append_str(&mut out, "Test Plans for Project ");
    assert(out@ =~= "Test Plans for Project "@);
    append_str(&mut out, project_key);
    append_str(&mut out, ":\n\n");
    out
}

/// A sprint: its id, name, state, dates, goal and where its board shows it.
pub fn sprint_text(id: i64, name: &str, state: &str, start_date: Option<&str>, end_date: Option<&str>, goal: Option<&str>, browse_base: &str, board_id: i64) -> (r: String)
    ensures
        r@ == "Sprint: "@ + signed_decimal(id as int) + "\nName: "@ + name@ + "\nState: "@ + state@ + "\nStart Date: "@ + text_or(start_date, "Not set"@) + "\nEnd Date: "@ + text_or(end_date, "Not set"@) + "\nGoal: "@ + text_or(goal, "No goal set"@) + "\nURL: "@ + browse_base@ + "/secure/RapidBoard.jspa?rapidView="@ + signed_decimal(board_id as int) + "&view=planning.nodetail&selectedIssue="@ + signed_decimal(id as int),
{
    let mut out = String::new();
    append_str(&mut out, "Sprint: ");
    assert(out@ =~= "Sprint: "@);
    append_signed_decimal(&mut out, id);
    append_str(&mut out, "\nName: ");
    append_str(&mut out, name);
    append_str(&mut out, "\nState: ");
    append_str(&mut out, state);
    append_str(&mut out, "\nStart Date: ");
    append_or(&mut out, start_date, "Not set");
    append_str(&mut out, "\nEnd Date: ");
    append_or(&mut out, end_date, "Not set");
    append_str(&mut out, "\nGoal: ");
    append_or(&mut out, goal, "No goal set");
    append_str(&mut out, "\nURL: ");
    append_str(&mut out, browse_base);
    append_str(&mut out, "/secure/RapidBoard.jspa?rapidView=");
    append_signed_decimal(&mut out, board_id);
    append_str(&mut out, "&view=planning.nodetail&selectedIssue=");
    append_signed_decimal(&mut out, id);
    out
}

/// The answer to a created sprint.
pub fn sprint_created_text(id: i64, name: &str, board_id: i64, browse_base: &str) -> (r: String)
    ensures
        r@ == "Sprint created successfully!\nID: "@ + signed_decimal(id as int) + "\nName: "@ + name@ + "\nBoard ID: "@ + signed_decimal(board_id as int) + "\nURL: "@ + browse_base@ + "/secure/RapidBoard.jspa?rapidView="@ + signed_decimal(board_id as int) + "&view=planning.nodetail&selectedIssue="@ + signed_decimal(id as int),
{
    let mut out = String::new();
    append_str(&mut out, "Sprint created successfully!\nID: ");
    assert(out@ =~= "Sprint created successfully!\nID: "@);
    append_signed_decimal(&mut out, id);
    append_str(&mut out, "\nName: ");
    append_str(&mut out, name);
    append_str(&mut out, "\nBoard ID: ");
    append_signed_decimal(&mut out, board_id);
    append_str(&mut out, "\nURL: ");
    append_str(&mut out, browse_base);
    append_str(&mut out, "/secure/RapidBoard.jspa?rapidView=");
    append_signed_decimal(&mut out, board_id);
    append_str(&mut out, "&view=planning.nodetail&selectedIssue=");
    append_signed_decimal(&mut out, id);
    out
}

/// The answer to a started sprint.
pub fn sprint_started_text(id: i64, name: &str, state: &str, browse_base: &str, board_id: i64) -> (r: String)
    ensures
        r@ == "Sprint started successfully!\nID: "@ + signed_decimal(id as int) + "\nName: "@ + name@ + "\nState: "@ + state@ + "\nURL: "@ + browse_base@ + "/secure/RapidBoard.jspa?rapidView="@ + signed_decimal(board_id as int) + "&view=planning.nodetail&selectedIssue="@ + signed_decimal(id as int),
{
    let mut out = String::new();
    append_str(&mut out, "Sprint started successfully!\nID: ");
    assert(out@ =~= "Sprint started successfully!\nID: "@);
    append_signed_decimal(&mut out, id);
    append_str(&mut out, "\nName: ");
    append_str(&mut out, name);
    append_str(&mut out, "\nState: ");
    append_str(&mut out, state);
    append_str(&mut out, "\nURL: ");
    append_str(&mut out, browse_base);
    append_str(&mut out, "/secure/RapidBoard.jspa?rapidView=");
    append_signed_decimal(&mut out, board_id);
    append_str(&mut out, "&view=planning.nodetail&selectedIssue=");
    append_signed_decimal(&mut out, id);
    out
}

/// The answer to a closed sprint.
pub fn sprint_closed_text(id: i64, name: &str, state: &str, browse_base: &str, board_id: i64) -> (r: String)
    ensures
        r@ == "Sprint closed successfully!\nID: "@ + signed_decimal(id as int) + "\nName: "@ + name@ + "\nState: "@ + state@ + "\nURL: "@ + browse_base@ + "/secure/RapidBoard.jspa?rapidView="@ + signed_decimal(board_id as int) + "&view=planning.nodetail&selectedIssue="@ + signed_decimal(id as int),
{
    let mut out = String::new();
    append_str(&mut out, "Sprint closed successfully!\nID: ");
    assert(out@ =~= "Sprint closed successfully!\nID: "@);
    append_signed_decimal(&mut out, id);
    append_str(&mut out, "\nName: ");
    append_str(&mut out, name);
    append_str(&mut out, "\nState: ");
    append_str(&mut out, state);
    append_str(&mut out, "\nURL: ");
    append_str(&mut out, browse_base);
    append_str(&mut out, "/secure/RapidBoard.jspa?rapidView=");
    append_signed_decimal(&mut out, board_id);
    append_str(&mut out, "&view=planning.nodetail&selectedIssue=");
    append_signed_decimal(&mut out, id);
    out
}

/// The heading of a board's sprints.
pub fn board_sprints_heading(count: u64, board_id: i64) -> (r: String)
    ensures
        r@ == "Found "@ + decimal(count as nat) + " sprints for board "@ + signed_decimal(board_id as int) + "\n\n"@,
{
    let mut out = String::new();
    append_str(&mut out, "Found ");
    assert(out@ =~= "Found "@);
    append_decimal(&mut out, count);
    append_str(&mut out, " sprints for board ");
    append_signed_decimal(&mut out, board_id);
    append_str(&mut out, "\n\n");
    out
}

/// One sprint of a board.
pub fn board_sprint_line(id: i64, name: &str, state: &str, start_date: Option<&str>, end_date: Option<&str>, goal: Option<&str>, browse_base: &str, board_id: i64) -> (r: String)
    ensures
        r@ == "• "@ + signed_decimal(id as int) + " - "@ + name@ + "\n  State: "@ + state@ + "\n  Start: "@ + text_or(start_date, "Not set"@) + "\n  End: "@ + text_or(end_date, "Not set"@) + "\n  Goal: "@ + text_or(goal, "No goal set"@) + "\n  URL: "@ + browse_base@ + "/secure/RapidBoard.jspa?rapidView="@ + signed_decimal(board_id as int) + "&view=planning.nodetail&selectedIssue="@ + signed_decimal(id as int) + "\n"@,
{
    let mut out = String::new();
    append_str(&mut out, "• ");
    assert(out@ =~= "• "@);
    append_signed_decimal(&mut out, id);
    append_str(&mut out, " - ");
    append_str(&mut out, name);
    append_str(&mut out, "\n  State: ");
    append_str(&mut out, state);
    append_str(&mut out, "\n  Start: ");
    append_or(&mut out, start_date, "Not set");
    append_str(&mut out, "\n  End: ");
    append_or(&mut out, end_date, "Not set");
    append_str(&mut out, "\n  Goal: ");
    append_or(&mut out, goal, "No goal set");
    append_str(&mut out, "\n  URL: ");
    append_str(&mut out, browse_base);
    append_str(&mut out, "/secure/RapidBoard.jspa?rapidView=");
    append_signed_decimal(&mut out, board_id);
    append_str(&mut out, "&view=planning.nodetail&selectedIssue=");
    append_signed_decimal(&mut out, id);
    append_str(&mut out, "\n");
    out
}

/// The answer to issues added to a sprint.
pub fn sprint_issues_added_text(count: u64, sprint_id: i64) -> (r: String)
    ensures
        r@ == "Added "@ + decimal(count as nat) + " issues to sprint "@ + signed_decimal(sprint_id as int) + "\n"@,
{
    let mut out = String::new();
    append_str(&mut out, "Added ");
    assert(out@ =~= "Added "@);
    append_decimal(&mut out, count);
    append_str(&mut out, " issues to sprint ");
    append_signed_decimal(&mut out, sprint_id);
    append_str(&mut out, "\n");
    out
}

/// The heading of the link types.
pub fn link_types_heading(count: u64) -> (r: String)
    ensures
        r@ == "Found "@ + decimal(count as nat) + " link types:\n\n"@,
{
    let mut out = String::new();
    append_str(&mut out, "Found ");
    assert(out@ =~= "Found "@);
    append_decimal(&mut out, count);
    append_str(&mut out, " link types:\n\n");
    out
}

/// One link type: its name and its inward description.
pub fn link_type_line(name: &str, inward: &str) -> (r: String)
    ensures
        r@ == "• "@ + name@ + " - "@ + inward@ + "\n"@,
{
    let mut out = String::new();
    append_str(&mut out, "• ");
    assert(out@ =~= "• "@);
    append_str(&mut out, name);
    append_str(&mut out, " - ");
    append_str(&mut out, inward);
    append_str(&mut out, "\n");
    out
}

/// The answer to a bulk update.
pub fn bulk_update_text(count: u64) -> (r: String)
    ensures
        r@ == "Bulk update completed successfully for "@ + decimal(count as nat) + " issues"@,
{
    let mut out = String::new();
    append_str(&mut out, "Bulk update completed successfully for ");
    assert(out@ =~= "Bulk update completed successfully for "@);
    append_decimal(&mut out, count);
    append_str(&mut out, " issues");
    out
}

/// The answer to a bulk transition.
pub fn bulk_transition_text(count: u64, transition_id: &str) -> (r: String)
    ensures
        r@ == "Bulk transition completed successfully for "@ + decimal(count as nat) + " issues to transition "@ + transition_id@,
{
    let mut out = String::new();
    append_str(&mut out, "Bulk transition completed successfully for ");
    assert(out@ =~= "Bulk transition completed successfully for "@);
    append_decimal(&mut out, count);
    append_str(&mut out, " issues to transition ");
    append_str(&mut out, transition_id);
    out
}

/// The answer to bulk comments.
pub fn bulk_comments_text(count: u64) -> (r: String)
    ensures
        r@ == "Bulk comment addition completed successfully for "@ + decimal(count as nat) + " issues"@,
{
    let mut out = String::new();
    append_str(&mut out, "Bulk comment addition completed successfully for ");
    assert(out@ =~= "Bulk comment addition completed successfully for "@);
    append_decimal(&mut out, count);
    append_str(&mut out, " issues");
    out
}

/// The answer to mixed bulk operations: how many ran, succeeded and failed.
pub fn mixed_bulk_text(total: u64, successful: u64, failed: u64) -> (r: String)
    ensures
        r@ == "Mixed bulk operations completed successfully\nTotal operations: "@ + decimal(total as nat) + "\nSuccessful: "@ + decimal(successful as nat) + "\nFailed: "@ + decimal(failed as nat),
{
    let mut out = String::new();
    append_str(&mut out, "Mixed bulk operations completed successfully\nTotal operations: ");
    assert(out@ =~= "Mixed bulk operations completed successfully\nTotal operations: "@);
    append_decimal(&mut out, total);
    append_str(&mut out, "\nSuccessful: ");
    append_decimal(&mut out, successful);
    append_str(&mut out, "\nFailed: ");
    append_decimal(&mut out, failed);
    out
}

/// The answer to a cloned issue.
pub fn issue_cloned_text(original_key: &str, cloned_key: &str, project_key: &str, issue_type: &str, summary: &str) -> (r: String)
    ensures
        r@ == "Issue cloned successfully\nOriginal: "@ + original_key@ + "\nCloned: "@ + cloned_key@ + "\nProject: "@ + project_key@ + "\nType: "@ + issue_type@ + "\nSummary: "@ + summary@,
{
    let mut out = String::new();
    append_str(&mut out, "Issue cloned successfully\nOriginal: ");
    assert(out@ =~= "Issue cloned successfully\nOriginal: "@);
    append_str(&mut out, original_key);
    append_str(&mut out, "\nCloned: ");
    append_str(&mut out, cloned_key);
    append_str(&mut out, "\nProject: ");
    append_str(&mut out, project_key);
    append_str(&mut out, "\nType: ");
    append_str(&mut out, issue_type);
    append_str(&mut out, "\nSummary: ");
    append_str(&mut out, summary);
    out
}

/// One issue that could not be added to a sprint, with the reason.
pub fn sprint_error_line(issue_key: &str, message: &str) -> (r: String)
    ensures
        r@ == "- "@ + issue_key@ + ": "@ + message@ + "\n"@,
{
    let mut out = String::new();
    append_str(&mut out, "- ");
    assert(out@ =~= "- "@);
    append_str(&mut out, issue_key);
    append_str(&mut out, ": ");
    append_str(&mut out, message);
    append_str(&mut out, "\n");
    out
}

/// The answer to two linked issues, saying whether a comment went with the
/// link.
pub fn issues_linked_text(inward_issue: &str, link_type: &str, outward_issue: &str, with_comment: bool) -> (r: String)
    ensures
        r@ == "Successfully linked "@ + inward_issue@ + " "@ + link_type@ + " "@ + outward_issue@ + if with_comment {
            " with comment"@
        } else {
            ""@
        },
{
    let mut out = String::new();
    append_str(&mut out, "Successfully linked ");
    assert(out@ =~= "Successfully linked "@);
    append_str(&mut out, inward_issue);
    append_str(&mut out, " ");
    append_str(&mut out, link_type);
    append_str(&mut out, " ");
    append_str(&mut out, outward_issue);
    if with_comment {
        append_str(&mut out, " with comment");
    } else {
        append_str(&mut out, "");
    }
    out
}

} // verus!
