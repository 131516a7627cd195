//! Listings of issues: what a search found, what a sprint holds, and the
//! description of a single issue; numbered lists of test steps, cases,
//! executions, cycles and plans.
use crate::replies::text_or;
use crate::text::{append_decimal, append_signed_decimal, append_str, decimal, signed_decimal};
use vstd::prelude::*;

verus! {

/// An issue as the listings of issues show it.
pub struct IssueLine {
    pub key: String,
    pub summary: Option<String>,
    pub status: Option<String>,
    pub assignee: Option<String>,
}

/// The text of an optional field, or its default.
pub open spec fn or_default(o: Option<String>, default: Seq<char>) -> Seq<char> {
    match o {
        Some(s) => s@,
        None => default,
    }
}

/// The heading of a sprint's issue listing.
pub open spec fn sprint_heading(shown: nat, sprint_id: int, total: nat) -> Seq<char> {
    "Found "@ + decimal(shown) + " issues in sprint "@ + signed_decimal(sprint_id) + " (showing "@
        + decimal(shown) + " of "@ + decimal(total) + " total)\n\n"@
}

/// One issue of a sprint's listing: key, summary, status, assignee and
/// where to browse it.
pub open spec fn sprint_issue_line(issue: IssueLine, browse_base: Seq<char>) -> Seq<char> {
    "• "@ + issue.key@ + " - "@ + or_default(issue.summary, "No summary"@) + "\n  Status: "@
        + or_default(issue.status, "Unknown status"@) + "\n  Assignee: "@ + or_default(
        issue.assignee,
        "Unassigned"@,
    ) + "\n  URL: "@ + browse_base + "/browse/"@ + issue.key@ + "\n"@
}

fn append_or(out: &mut String, o: &Option<String>, default: &str)
    ensures
        final(out)@ == old(out)@ + or_default(*o, default@),
{
    match o {
        Some(s) => append_str(out, s.as_str()),
        None => append_str(out, default),
    }
}

fn issue_line(issue: &IssueLine, browse_base: &str) -> (r: String)
    ensures
        r@ == sprint_issue_line(*issue, browse_base@),
{
    let mut out = String::new();
    append_str(&mut out, "• ");
    assert(out@ =~= "• "@);
    append_str(&mut out, issue.key.as_str());
    append_str(&mut out, " - ");
    append_or(&mut out, &issue.summary, "No summary");
    append_str(&mut out, "\n  Status: ");
    append_or(&mut out, &issue.status, "Unknown status");
    append_str(&mut out, "\n  Assignee: ");
    append_or(&mut out, &issue.assignee, "Unassigned");
    append_str(&mut out, "\n  URL: ");
    append_str(&mut out, browse_base);
    append_str(&mut out, "/browse/");
    append_str(&mut out, issue.key.as_str());
    append_str(&mut out, "\n");
    out
}

/// The listing of a sprint's issues: a heading with how many are shown and
/// how many the sprint has, then one text per issue, in order.
pub fn sprint_issues_text(sprint_id: i64, total: u64, issues: &Vec<IssueLine>, browse_base: &str) -> (r: Vec<String>)
    ensures
        r@.len() == issues@.len() + 1,
        r@[0]@ == sprint_heading(issues@.len(), sprint_id as int, total as nat),
        forall|i: int| 0 <= i < issues@.len() ==> (#[trigger] r@[i + 1])@ == sprint_issue_line(issues@[i], browse_base@),
{
    let shown = issues.len() as u64;
    let mut heading = String::new();
    append_str(&mut heading, "Found ");
    assert(heading@ =~= "Found "@);
    append_decimal(&mut heading, shown);
    append_str(&mut heading, " issues in sprint ");
    append_signed_decimal(&mut heading, sprint_id);
    append_str(&mut heading, " (showing ");
    append_decimal(&mut heading, shown);
    append_str(&mut heading, " of ");
    append_decimal(&mut heading, total);
    append_str(&mut heading, " total)\n\n");
    let mut r: Vec<String> = Vec::new();
    r.push(heading);
    let mut i: usize = 0;
    while i < issues.len()
        invariant
            i <= issues@.len(),
            r@.len() == i + 1,
            r@[0]@ == sprint_heading(issues@.len(), sprint_id as int, total as nat),
            forall|j: int| 0 <= j < i ==> (#[trigger] r@[j + 1])@ == sprint_issue_line(issues@[j], browse_base@),
        decreases issues@.len() - i,
    {
        let line = issue_line(&issues[i], browse_base);
        r.push(line);
        i = i + 1;
    }
    r
}

/// The heading of the issues found by a search.
pub open spec fn search_heading(shown: nat, total: nat) -> Seq<char> {
    "Found "@ + decimal(shown) + " issues (showing "@ + decimal(shown) + " of "@ + decimal(total)
        + " total)\n\n"@
}

/// One issue found by a search: key, summary and status.
pub open spec fn search_issue_line(issue: IssueLine) -> Seq<char> {
    "• "@ + issue.key@ + " - "@ + or_default(issue.summary, "No summary"@) + " ("@ + or_default(
        issue.status,
        "Unknown status"@,
    ) + ")\n"@
}

fn found_issue_line(issue: &IssueLine) -> (r: String)
    ensures
        r@ == search_issue_line(*issue),
{
    let mut out = String::new();
    append_str(&mut out, "• ");
    assert(out@ =~= "• "@);
    append_str(&mut out, issue.key.as_str());
    append_str(&mut out, " - ");
    append_or(&mut out, &issue.summary, "No summary");
    append_str(&mut out, " (");
    append_or(&mut out, &issue.status, "Unknown status");
    append_str(&mut out, ")\n");
    out
}

/// The issues found by a search: a heading with how many are shown and
/// how many match, then one text per issue, in order.
pub fn search_results_text(total: u64, issues: &Vec<IssueLine>) -> (r: Vec<String>)
    ensures
        r@.len() == issues@.len() + 1,
        r@[0]@ == search_heading(issues@.len(), total as nat),
        forall|i: int| 0 <= i < issues@.len() ==> (#[trigger] r@[i + 1])@ == search_issue_line(issues@[i]),
{
    let shown = issues.len() as u64;
    let mut heading = String::new();
    append_str(&mut heading, "Found ");
    assert(heading@ =~= "Found "@);
    append_decimal(&mut heading, shown);
    append_str(&mut heading, " issues (showing ");
    append_decimal(&mut heading, shown);
    append_str(&mut heading, " of ");
    append_decimal(&mut heading, total);
    append_str(&mut heading, " total)\n\n");
    let mut r: Vec<String> = Vec::new();
    r.push(heading);
    let mut i: usize = 0;
    while i < issues.len()
        invariant
            i <= issues@.len(),
            r@.len() == i + 1,
            r@[0]@ == search_heading(issues@.len(), total as nat),
            forall|j: int| 0 <= j < i ==> (#[trigger] r@[j + 1])@ == search_issue_line(issues@[j]),
        decreases issues@.len() - i,
    {
        let line = found_issue_line(&issues[i]);
        r.push(line);
        i = i + 1;
    }
    r
}

/// The description of one issue: key, summary, status, assignee and where
/// to browse it.
pub open spec fn issue_details(issue: IssueLine, browse_base: Seq<char>) -> Seq<char> {
    "Issue: "@ + issue.key@ + "\nSummary: "@ + or_default(issue.summary, "No summary"@)
        + "\nStatus: "@ + or_default(issue.status, "Unknown status"@) + "\nAssignee: "@
        + or_default(issue.assignee, "Unassigned"@) + "\nURL: "@ + browse_base + "/browse/"@
        + issue.key@
}

/// Describes one issue.
pub fn issue_details_text(issue: &IssueLine, browse_base: &str) -> (r: String)
    ensures
        r@ == issue_details(*issue, browse_base@),
{
    let mut out = String::new();
    append_str(&mut out, "Issue: ");
    assert(out@ =~= "Issue: "@);
    append_str(&mut out, issue.key.as_str());
    append_str(&mut out, "\nSummary: ");
    append_or(&mut out, &issue.summary, "No summary");
    append_str(&mut out, "\nStatus: ");
    append_or(&mut out, &issue.status, "Unknown status");
    append_str(&mut out, "\nAssignee: ");
    append_or(&mut out, &issue.assignee, "Unassigned");
    append_str(&mut out, "\nURL: ");
    append_str(&mut out, browse_base);
    append_str(&mut out, "/browse/");
    append_str(&mut out, issue.key.as_str());
    out
}

/// The answer to a created issue: its key, the summary it was created
/// with, and where to browse it.
pub fn created_issue_text(key: &str, summary: &str, browse_base: &str) -> (r: String)
    ensures
        r@ == "Issue created successfully: "@ + key@ + " - "@ + summary@ + "\nURL: "@ + browse_base@
            + "/browse/"@ + key@,
{
    let mut out = String::new();
    append_str(&mut out, "Issue created successfully: ");
    assert(out@ =~= "Issue created successfully: "@);
    append_str(&mut out, key);
    append_str(&mut out, " - ");
    append_str(&mut out, summary);
    append_str(&mut out, "\nURL: ");
    append_str(&mut out, browse_base);
    append_str(&mut out, "/browse/");
    append_str(&mut out, key);
    out
}


/// An entry of a numbered list: a title, then labelled values, one per
/// line.
pub struct NumberedEntry {
    pub title: String,
    pub fields: Vec<(&'static str, String)>,
}

/// The labels and values of an entry.
pub open spec fn entry_fields(e: NumberedEntry) -> Seq<(Seq<char>, Seq<char>)> {
    Seq::new(e.fields@.len(), |i: int| (e.fields@[i].0@, e.fields@[i].1@))
}

/// The lines of labelled values: each on a line of its own, indented.
pub open spec fn fields_text(fields: Seq<(Seq<char>, Seq<char>)>) -> Seq<char>
    decreases fields.len(),
{
    if fields.len() == 0 {
        Seq::empty()
    } else {
        fields_text(fields.drop_last()) + "\n   "@ + fields.last().0 + ": "@ + fields.last().1
    }
}

/// The `n`-th entry of a numbered list.
pub open spec fn entry_text(n: nat, e: NumberedEntry) -> Seq<char> {
    decimal(n) + ". "@ + e.title@ + fields_text(entry_fields(e)) + "\n\n"@
}

/// The entries of a numbered list, numbered from 1.
pub open spec fn entries_text(es: Seq<NumberedEntry>) -> Seq<char>
    decreases es.len(),
{
    if es.len() == 0 {
        Seq::empty()
    } else {
        entries_text(es.drop_last()) + entry_text(es.len(), es.last())
    }
}

fn append_entry(out: &mut String, n: u64, e: &NumberedEntry)
    ensures
        final(out)@ == old(out)@ + entry_text(n as nat, *e),
{
    let ghost start = out@;
    append_decimal(out, n);
    append_str(out, ". ");
    append_str(out, e.title.as_str());
    let ghost head = out@;
    let ghost all = entry_fields(*e);
    let mut j: usize = 0;
    while j < e.fields.len()
        invariant
            j <= e.fields@.len(),
            all == entry_fields(*e),
            out@ == head + fields_text(all.take(j as int)),
        decreases e.fields@.len() - j,
    {
        proof {
            assert(all.take(j + 1).drop_last() =~= all.take(j as int));
        }
        append_str(out, "\n   ");
        append_str(out, e.fields[j].0);
        append_str(out, ": ");
        append_str(out, e.fields[j].1.as_str());
        j = j + 1;
    }
    assert(all.take(j as int) =~= all);
    append_str(out, "\n\n");
    assert(out@ =~= start + entry_text(n as nat, *e));
}

/// A numbered list under a heading, or the heading and `empty_note` when
/// there is nothing to list.
pub fn numbered_listing(heading: &str, empty_note: &str, entries: &Vec<NumberedEntry>) -> (r: String)
    ensures
        r@ == heading@ + if entries@.len() == 0 {
            empty_note@
        } else {
            entries_text(entries@)
        },
{
    let mut out = String::new();
    append_str(&mut out, heading);
    assert(out@ =~= heading@);
    if entries.len() == 0 {
        append_str(&mut out, empty_note);
        return out;
    }
    let mut i: usize = 0;
    while i < entries.len()
        invariant
            i <= entries@.len(),
            out@ == heading@ + entries_text(entries@.take(i as int)),
        decreases entries@.len() - i,
    {
        proof {
            assert(entries@.take(i + 1).drop_last() =~= entries@.take(i as int));
        }
        append_entry(&mut out, (i + 1) as u64, &entries[i]);
        i = i + 1;
    }
    assert(entries@.take(i as int) =~= entries@);
    out
}

/// A step of a test case: its text, order, data and expected result.
pub fn test_step_entry(step: &str, order: i64, data: Option<&str>, result: Option<&str>) -> (e: NumberedEntry)
    ensures
        e.title@ == step@,
        entry_fields(e) == seq![("Order"@, signed_decimal(order as int)), ("Data"@, text_or(data, "None"@)), ("Expected Result"@, text_or(result, "None"@))],
{
    let mut title = String::new();
    append_str(&mut title, step);
    assert(title@ =~= step@);
    let mut fields: Vec<(&'static str, String)> = Vec::new();
    let mut v0 = String::new();
    append_signed_decimal(&mut v0, order);
    assert(v0@ =~= signed_decimal(order as int));
    fields.push(("Order", v0));
    let mut v1 = String::new();
    crate::replies::append_or(&mut v1, data, "None");
    assert(v1@ =~= text_or(data, "None"@));
    fields.push(("Data", v1));
    let mut v2 = String::new();
    crate::replies::append_or(&mut v2, result, "None");
    assert(v2@ =~= text_or(result, "None"@));
    fields.push(("Expected Result", v2));
    let e = NumberedEntry { title, fields };
    assert(entry_fields(e) =~= seq![("Order"@, signed_decimal(order as int)), ("Data"@, text_or(data, "None"@)), ("Expected Result"@, text_or(result, "None"@))]);
    e
}

/// A test case found: key and name, project, type, status and priority.
pub fn test_case_entry(key: Option<&str>, name: &str, project_key: &str, issue_type: &str, status: Option<&str>, priority: Option<&str>) -> (e: NumberedEntry)
    ensures
        e.title@ == text_or(key, "No Key"@) + " - "@ + name@,
        entry_fields(e) == seq![("Project"@, project_key@), ("Type"@, issue_type@), ("Status"@, text_or(status, "Unknown"@)), ("Priority"@, text_or(priority, "Unknown"@))],
{
    let mut title = String::new();
    crate::replies::append_or(&mut title, key, "No Key");
    assert(title@ =~= text_or(key, "No Key"@));
    append_str(&mut title, " - ");
    append_str(&mut title, name);
    let mut fields: Vec<(&'static str, String)> = Vec::new();
    let mut v0 = String::new();
    append_str(&mut v0, project_key);
    assert(v0@ =~= project_key@);
    fields.push(("Project", v0));
    let mut v1 = String::new();
    append_str(&mut v1, issue_type);
    assert(v1@ =~= issue_type@);
    fields.push(("Type", v1));
    let mut v2 = String::new();
    crate::replies::append_or(&mut v2, status, "Unknown");
    assert(v2@ =~= text_or(status, "Unknown"@));
    fields.push(("Status", v2));
    let mut v3 = String::new();
    crate::replies::append_or(&mut v3, priority, "Unknown");
    assert(v3@ =~= text_or(priority, "Unknown"@));
    fields.push(("Priority", v3));
    let e = NumberedEntry { title, fields };
    assert(entry_fields(e) =~= seq![("Project"@, project_key@), ("Type"@, issue_type@), ("Status"@, text_or(status, "Unknown"@)), ("Priority"@, text_or(priority, "Unknown"@))]);
    e
}

/// An execution of a test case: its id, status, assignee, executor, date and comment.
pub fn test_execution_entry(id: Option<&str>, status: &str, assignee: Option<&str>, executed_by: Option<&str>, executed_on: Option<&str>, comment: Option<&str>) -> (e: NumberedEntry)
    ensures
        e.title@ == "Execution ID: "@ + text_or(id, "Unknown"@),
        entry_fields(e) == seq![("Status"@, status@), ("Assignee"@, text_or(assignee, "Unassigned"@)), ("Executed By"@, text_or(executed_by, "Unknown"@)), ("Executed On"@, text_or(executed_on, "Unknown"@)), ("Comment"@, text_or(comment, "None"@))],
{
    let mut title = String::new();
    append_str(&mut title, "Execution ID: ");
    assert(title@ =~= "Execution ID: "@);
    crate::replies::append_or(&mut title, id, "Unknown");
    let mut fields: Vec<(&'static str, String)> = Vec::new();
    let mut v0 = String::new();
    append_str(&mut v0, status);
    assert(v0@ =~= status@);
    fields.push(("Status", v0));
    let mut v1 = String::new();
    crate::replies::append_or(&mut v1, assignee, "Unassigned");
    assert(v1@ =~= text_or(assignee, "Unassigned"@));
    fields.push(("Assignee", v1));
    let mut v2 = String::new();
    crate::replies::append_or(&mut v2, executed_by, "Unknown");
    assert(v2@ =~= text_or(executed_by, "Unknown"@));
    fields.push(("Executed By", v2));
    let mut v3 = String::new();
    crate::replies::append_or(&mut v3, executed_on, "Unknown");
    assert(v3@ =~= text_or(executed_on, "Unknown"@));
    fields.push(("Executed On", v3));
    let mut v4 = String::new();
    crate::replies::append_or(&mut v4, comment, "None");
    assert(v4@ =~= text_or(comment, "None"@));
    fields.push(("Comment", v4));
    let e = NumberedEntry { title, fields };
    assert(entry_fields(e) =~= seq![("Status"@, status@), ("Assignee"@, text_or(assignee, "Unassigned"@)), ("Executed By"@, text_or(executed_by, "Unknown"@)), ("Executed On"@, text_or(executed_on, "Unknown"@)), ("Comment"@, text_or(comment, "None"@))]);
    e
}

/// A test cycle: its name, id, description, environment, status and creator.
pub fn test_cycle_entry(name: &str, id: Option<&str>, description: Option<&str>, environment: Option<&str>, status: Option<&str>, created_by: Option<&str>) -> (e: NumberedEntry)
    ensures
        e.title@ == name@,
        entry_fields(e) == seq![("ID"@, text_or(id, "Unknown"@)), ("Description"@, text_or(description, "None"@)), ("Environment"@, text_or(environment, "None"@)), ("Status"@, text_or(status, "Unknown"@)), ("Created By"@, text_or(created_by, "Unknown"@))],
{
    let mut title = String::new();
    append_str(&mut title, name);
    assert(title@ =~= name@);
    let mut fields: Vec<(&'static str, String)> = Vec::new();
    let mut v0 = String::new();
    crate::replies::append_or(&mut v0, id, "Unknown");
    assert(v0@ =~= text_or(id, "Unknown"@));
    fields.push(("ID", v0));
    let mut v1 = String::new();
    crate::replies::append_or(&mut v1, description, "None");
    assert(v1@ =~= text_or(description, "None"@));
    fields.push(("Description", v1));
    let mut v2 = String::new();
    crate::replies::append_or(&mut v2, environment, "None");
    assert(v2@ =~= text_or(environment, "None"@));
    fields.push(("Environment", v2));
    let mut v3 = String::new();
    crate::replies::append_or(&mut v3, status, "Unknown");
    assert(v3@ =~= text_or(status, "Unknown"@));
    fields.push(("Status", v3));
    let mut v4 = String::new();
    crate::replies::append_or(&mut v4, created_by, "Unknown");
    assert(v4@ =~= text_or(created_by, "Unknown"@));
    fields.push(("Created By", v4));
    let e = NumberedEntry { title, fields };
    assert(entry_fields(e) =~= seq![("ID"@, text_or(id, "Unknown"@)), ("Description"@, text_or(description, "None"@)), ("Environment"@, text_or(environment, "None"@)), ("Status"@, text_or(status, "Unknown"@)), ("Created By"@, text_or(created_by, "Unknown"@))]);
    e
}

/// A test plan: its name, id, description, status and creator.
pub fn test_plan_entry(name: &str, id: Option<&str>, description: Option<&str>, status: Option<&str>, created_by: Option<&str>) -> (e: NumberedEntry)
    ensures
        e.title@ == name@,
        entry_fields(e) == seq![("ID"@, text_or(id, "Unknown"@)), ("Description"@, text_or(description, "None"@)), ("Status"@, text_or(status, "Unknown"@)), ("Created By"@, text_or(created_by, "Unknown"@))],
{
    let mut title = String::new();
    append_str(&mut title, name);
    assert(title@ =~= name@);
    let mut fields: Vec<(&'static str, String)> = Vec::new();
    let mut v0 = String::new();
    crate::replies::append_or(&mut v0, id, "Unknown");
    assert(v0@ =~= text_or(id, "Unknown"@));
    fields.push(("ID", v0));
    let mut v1 = String::new();
    crate::replies::append_or(&mut v1, description, "None");
    assert(v1@ =~= text_or(description, "None"@));
    fields.push(("Description", v1));
    let mut v2 = String::new();
    crate::replies::append_or(&mut v2, status, "Unknown");
    assert(v2@ =~= text_or(status, "Unknown"@));
    fields.push(("Status", v2));
    let mut v3 = String::new();
    crate::replies::append_or(&mut v3, created_by, "Unknown");
    assert(v3@ =~= text_or(created_by, "Unknown"@));
    fields.push(("Created By", v3));
    let e = NumberedEntry { title, fields };
    assert(entry_fields(e) =~= seq![("ID"@, text_or(id, "Unknown"@)), ("Description"@, text_or(description, "None"@)), ("Status"@, text_or(status, "Unknown"@)), ("Created By"@, text_or(created_by, "Unknown"@))]);
    e
}

} // verus!
