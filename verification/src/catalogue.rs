//! The entries of the tool catalogue: each tool's name, description and
//! arguments (kind, description, items, values, allowed values, nested
//! fields), as the server lists them.
use crate::tools::{
    list_param, param, param_names, push_param, required_names, schema_well_formed, str_views, tool_view,
    FieldView, ParamKind, ParamView, ToolParam, ToolSpec, ToolView,
};
use vstd::prelude::*;

verus! {

/// The schema of the `test_jira_auth` tool.
pub open spec fn test_jira_auth_spec() -> ToolView {
    (
        "test_jira_auth"@,
        "Test authentication with Jira API"@,
        seq![
            (
                ("random_string"@, ParamKind::String, "Any string to test the connection"@, Option::<ParamKind>::None, Option::<ParamKind>::None, Seq::<Seq<char>>::empty()),
                Seq::<FieldView>::empty(),
                Seq::<Seq<char>>::empty(),
            ),
        ],
        seq!["random_string"@],
    )
}

/// The `test_jira_auth` tool.
pub(crate) fn test_jira_auth_tool() -> (t: ToolSpec)
    ensures
        tool_view(t) == test_jira_auth_spec(),
        schema_well_formed(t),
{
    let mut params: Vec<ToolParam> = Vec::new();
    push_param(&mut params, param("random_string", ParamKind::String, "Any string to test the connection"));
    let mut required: Vec<&'static str> = Vec::new();
    required.push("random_string");
    let t = ToolSpec { name: "test_jira_auth", description: "Test authentication with Jira API", params, required };
    assert(param_names(t.params@) =~= seq!["random_string"@]);
    assert(required_names(t) =~= seq!["random_string"@]);
    assert forall|j: int| 0 <= j < required_names(t).len() implies param_names(t.params@).contains(#[trigger] required_names(t)[j]) by {
        if j == 0 {
            assert(param_names(t.params@)[0] == required_names(t)[0]);
        }
    }
    assert(tool_view(t) =~~= test_jira_auth_spec());
    t
}

/// The schema of the `search_jira_issues` tool.
pub open spec fn search_jira_issues_spec() -> ToolView {
    (
        "search_jira_issues"@,
        "Search for Jira issues using JQL (Jira Query Language)"@,
        seq![
            (
                ("jql"@, ParamKind::String, "The JQL query string to search for issues"@, Option::<ParamKind>::None, Option::<ParamKind>::None, Seq::<Seq<char>>::empty()),
                Seq::<FieldView>::empty(),
                Seq::<Seq<char>>::empty(),
            ),
            (
                ("start_at"@, ParamKind::Integer, "The index of the first item to return"@, Option::<ParamKind>::None, Option::<ParamKind>::None, Seq::<Seq<char>>::empty()),
                Seq::<FieldView>::empty(),
                Seq::<Seq<char>>::empty(),
            ),
            (
                ("max_results"@, ParamKind::Integer, "The maximum number of items to return"@, Option::<ParamKind>::None, Option::<ParamKind>::None, Seq::<Seq<char>>::empty()),
                Seq::<FieldView>::empty(),
                Seq::<Seq<char>>::empty(),
            ),
            (
                ("fields"@, ParamKind::Array, "List of fields to return for each issue"@, Option::<ParamKind>::Some(ParamKind::String), Option::<ParamKind>::None, Seq::<Seq<char>>::empty()),
                Seq::<FieldView>::empty(),
                Seq::<Seq<char>>::empty(),
            ),
        ],
        seq!["jql"@],
    )
}

/// The `search_jira_issues` tool.
pub(crate) fn search_jira_issues_tool() -> (t: ToolSpec)
    ensures
        tool_view(t) == search_jira_issues_spec(),
        schema_well_formed(t),
{
    let mut params: Vec<ToolParam> = Vec::new();
    push_param(&mut params, param("jql", ParamKind::String, "The JQL query string to search for issues"));
    push_param(&mut params, param("start_at", ParamKind::Integer, "The index of the first item to return"));
    push_param(&mut params, param("max_results", ParamKind::Integer, "The maximum number of items to return"));
    push_param(&mut params, list_param("fields", ParamKind::String, "List of fields to return for each issue"));
    let mut required: Vec<&'static str> = Vec::new();
    required.push("jql");
    let t = ToolSpec { name: "search_jira_issues", description: "Search for Jira issues using JQL (Jira Query Language)", params, required };
    assert(param_names(t.params@) =~= seq!["jql"@, "start_at"@, "max_results"@, "fields"@]);
    assert(required_names(t) =~= seq!["jql"@]);
    assert forall|j: int| 0 <= j < required_names(t).len() implies param_names(t.params@).contains(#[trigger] required_names(t)[j]) by {
        if j == 0 {
            assert(param_names(t.params@)[0] == required_names(t)[0]);
        }
    }
    assert(tool_view(t) =~~= search_jira_issues_spec());
    t
}

/// The schema of the `create_jira_issue` tool.
pub open spec fn create_jira_issue_spec() -> ToolView {
    (
        "create_jira_issue"@,
        "Create a new Jira issue"@,
        seq![
            (
                ("fields"@, ParamKind::Object, "The issue field values"@, Option::<ParamKind>::None, Option::<ParamKind>::None, Seq::<Seq<char>>::empty()),
                Seq::<FieldView>::empty(),
                Seq::<Seq<char>>::empty(),
            ),
        ],
        seq!["fields"@],
    )
}

/// The `create_jira_issue` tool.
pub(crate) fn create_jira_issue_tool() -> (t: ToolSpec)
    ensures
        tool_view(t) == create_jira_issue_spec(),
        schema_well_formed(t),
{
    let mut params: Vec<ToolParam> = Vec::new();
    push_param(&mut params, param("fields", ParamKind::Object, "The issue field values"));
    let mut required: Vec<&'static str> = Vec::new();
    required.push("fields");
    let t = ToolSpec { name: "create_jira_issue", description: "Create a new Jira issue", params, required };
    assert(param_names(t.params@) =~= seq!["fields"@]);
    assert(required_names(t) =~= seq!["fields"@]);
    assert forall|j: int| 0 <= j < required_names(t).len() implies param_names(t.params@).contains(#[trigger] required_names(t)[j]) by {
        if j == 0 {
            assert(param_names(t.params@)[0] == required_names(t)[0]);
        }
    }
    assert(tool_view(t) =~~= create_jira_issue_spec());
    t
}

/// The schema of the `update_jira_issue` tool.
pub open spec fn update_jira_issue_spec() -> ToolView {
    (
        "update_jira_issue"@,
        "Update an existing Jira issue"@,
        seq![
            (
                ("issue_id_or_key"@, ParamKind::String, "The ID or key of the issue to update"@, Option::<ParamKind>::None, Option::<ParamKind>::None, Seq::<Seq<char>>::empty()),
                Seq::<FieldView>::empty(),
                Seq::<Seq<char>>::empty(),
            ),
            (
                ("fields"@, ParamKind::Object, "The fields to update"@, Option::<ParamKind>::None, Option::<ParamKind>::None, Seq::<Seq<char>>::empty()),
                Seq::<FieldView>::empty(),
                Seq::<Seq<char>>::empty(),
            ),
        ],
        seq!["issue_id_or_key"@, "fields"@],
    )
}

/// The `update_jira_issue` tool.
pub(crate) fn update_jira_issue_tool() -> (t: ToolSpec)
    ensures
        tool_view(t) == update_jira_issue_spec(),
        schema_well_formed(t),
{
    let mut params: Vec<ToolParam> = Vec::new();
    push_param(&mut params, param("issue_id_or_key", ParamKind::String, "The ID or key of the issue to update"));
    push_param(&mut params, param("fields", ParamKind::Object, "The fields to update"));
    let mut required: Vec<&'static str> = Vec::new();
    required.push("issue_id_or_key");
    required.push("fields");
    let t = ToolSpec { name: "update_jira_issue", description: "Update an existing Jira issue", params, required };
    assert(param_names(t.params@) =~= seq!["issue_id_or_key"@, "fields"@]);
    assert(required_names(t) =~= seq!["issue_id_or_key"@, "fields"@]);
    assert forall|j: int| 0 <= j < required_names(t).len() implies param_names(t.params@).contains(#[trigger] required_names(t)[j]) by {
        if j == 0 {
            assert(param_names(t.params@)[0] == required_names(t)[0]);
        } else if j == 1 {
            assert(param_names(t.params@)[1] == required_names(t)[1]);
        }
    }
    assert(tool_view(t) =~~= update_jira_issue_spec());
    t
}

/// The schema of the `get_jira_issue` tool.
pub open spec fn get_jira_issue_spec() -> ToolView {
    (
        "get_jira_issue"@,
        "Get details of a specific Jira issue"@,
        seq![
            (
                ("issue_key"@, ParamKind::String, "The key of the issue to retrieve"@, Option::<ParamKind>::None, Option::<ParamKind>::None, Seq::<Seq<char>>::empty()),
                Seq::<FieldView>::empty(),
                Seq::<Seq<char>>::empty(),
            ),
        ],
        seq!["issue_key"@],
    )
}

/// The `get_jira_issue` tool.
pub(crate) fn get_jira_issue_tool() -> (t: ToolSpec)
    ensures
        tool_view(t) == get_jira_issue_spec(),
        schema_well_formed(t),
{
    let mut params: Vec<ToolParam> = Vec::new();
    push_param(&mut params, param("issue_key", ParamKind::String, "The key of the issue to retrieve"));
    let mut required: Vec<&'static str> = Vec::new();
    required.push("issue_key");
    let t = ToolSpec { name: "get_jira_issue", description: "Get details of a specific Jira issue", params, required };
    assert(param_names(t.params@) =~= seq!["issue_key"@]);
    assert(required_names(t) =~= seq!["issue_key"@]);
    assert forall|j: int| 0 <= j < required_names(t).len() implies param_names(t.params@).contains(#[trigger] required_names(t)[j]) by {
        if j == 0 {
            assert(param_names(t.params@)[0] == required_names(t)[0]);
        }
    }
    assert(tool_view(t) =~~= get_jira_issue_spec());
    t
}

/// The schema of the `get_jira_comments` tool.
pub open spec fn get_jira_comments_spec() -> ToolView {
    (
        "get_jira_comments"@,
        "Get all comments for a Jira issue"@,
        seq![
            (
                ("issue_key"@, ParamKind::String, "The key of the issue to get comments for"@, Option::<ParamKind>::None, Option::<ParamKind>::None, Seq::<Seq<char>>::empty()),
                Seq::<FieldView>::empty(),
                Seq::<Seq<char>>::empty(),
            ),
        ],
        seq!["issue_key"@],
    )
}

/// The `get_jira_comments` tool.
pub(crate) fn get_jira_comments_tool() -> (t: ToolSpec)
    ensures
        tool_view(t) == get_jira_comments_spec(),
        schema_well_formed(t),
{
    let mut params: Vec<ToolParam> = Vec::new();
    push_param(&mut params, param("issue_key", ParamKind::String, "The key of the issue to get comments for"));
    let mut required: Vec<&'static str> = Vec::new();
    required.push("issue_key");
    let t = ToolSpec { name: "get_jira_comments", description: "Get all comments for a Jira issue", params, required };
    assert(param_names(t.params@) =~= seq!["issue_key"@]);
    assert(required_names(t) =~= seq!["issue_key"@]);
    assert forall|j: int| 0 <= j < required_names(t).len() implies param_names(t.params@).contains(#[trigger] required_names(t)[j]) by {
        if j == 0 {
            assert(param_names(t.params@)[0] == required_names(t)[0]);
        }
    }
    assert(tool_view(t) =~~= get_jira_comments_spec());
    t
}

/// The schema of the `add_jira_comment` tool.
pub open spec fn add_jira_comment_spec() -> ToolView {
    (
        "add_jira_comment"@,
        "Add a comment to a Jira issue"@,
        seq![
            (
                ("issue_key"@, ParamKind::String, "The key of the issue to add a comment to"@, Option::<ParamKind>::None, Option::<ParamKind>::None, Seq::<Seq<char>>::empty()),
                Seq::<FieldView>::empty(),
                Seq::<Seq<char>>::empty(),
            ),
            (
                ("comment_body"@, ParamKind::String, "The comment text to add"@, Option::<ParamKind>::None, Option::<ParamKind>::None, Seq::<Seq<char>>::empty()),
                Seq::<FieldView>::empty(),
                Seq::<Seq<char>>::empty(),
            ),
        ],
        seq!["issue_key"@, "comment_body"@],
    )
}

/// The `add_jira_comment` tool.
pub(crate) fn add_jira_comment_tool() -> (t: ToolSpec)
    ensures
        tool_view(t) == add_jira_comment_spec(),
        schema_well_formed(t),
{
    let mut params: Vec<ToolParam> = Vec::new();
    push_param(&mut params, param("issue_key", ParamKind::String, "The key of the issue to add a comment to"));
    push_param(&mut params, param("comment_body", ParamKind::String, "The comment text to add"));
    let mut required: Vec<&'static str> = Vec::new();
    required.push("issue_key");
    required.push("comment_body");
    let t = ToolSpec { name: "add_jira_comment", description: "Add a comment to a Jira issue", params, required };
    assert(param_names(t.params@) =~= seq!["issue_key"@, "comment_body"@]);
    assert(required_names(t) =~= seq!["issue_key"@, "comment_body"@]);
    assert forall|j: int| 0 <= j < required_names(t).len() implies param_names(t.params@).contains(#[trigger] required_names(t)[j]) by {
        if j == 0 {
            assert(param_names(t.params@)[0] == required_names(t)[0]);
        } else if j == 1 {
            assert(param_names(t.params@)[1] == required_names(t)[1]);
        }
    }
    assert(tool_view(t) =~~= add_jira_comment_spec());
    t
}

/// The schema of the `get_jira_transitions` tool.
pub open spec fn get_jira_transitions_spec() -> ToolView {
    (
        "get_jira_transitions"@,
        "Get available transitions for a Jira issue"@,
        seq![
            (
                ("issue_key"@, ParamKind::String, "The key of the issue to get transitions for"@, Option::<ParamKind>::None, Option::<ParamKind>::None, Seq::<Seq<char>>::empty()),
                Seq::<FieldView>::empty(),
                Seq::<Seq<char>>::empty(),
            ),
        ],
        seq!["issue_key"@],
    )
}

/// The `get_jira_transitions` tool.
pub(crate) fn get_jira_transitions_tool() -> (t: ToolSpec)
    ensures
        tool_view(t) == get_jira_transitions_spec(),
        schema_well_formed(t),
{
    let mut params: Vec<ToolParam> = Vec::new();
    push_param(&mut params, param("issue_key", ParamKind::String, "The key of the issue to get transitions for"));
    let mut required: Vec<&'static str> = Vec::new();
    required.push("issue_key");
    let t = ToolSpec { name: "get_jira_transitions", description: "Get available transitions for a Jira issue", params, required };
    assert(param_names(t.params@) =~= seq!["issue_key"@]);
    assert(required_names(t) =~= seq!["issue_key"@]);
    assert forall|j: int| 0 <= j < required_names(t).len() implies param_names(t.params@).contains(#[trigger] required_names(t)[j]) by {
        if j == 0 {
            assert(param_names(t.params@)[0] == required_names(t)[0]);
        }
    }
    assert(tool_view(t) =~~= get_jira_transitions_spec());
    t
}

/// The schema of the `transition_jira_issue` tool.
pub open spec fn transition_jira_issue_spec() -> ToolView {
    (
        "transition_jira_issue"@,
        "Transition a Jira issue to a new status"@,
        seq![
            (
                ("issue_key"@, ParamKind::String, "The key of the issue to transition"@, Option::<ParamKind>::None, Option::<ParamKind>::None, Seq::<Seq<char>>::empty()),
                Seq::<FieldView>::empty(),
                Seq::<Seq<char>>::empty(),
            ),
            (
                ("transition_id"@, ParamKind::String, "The ID of the transition to apply"@, Option::<ParamKind>::None, Option::<ParamKind>::None, Seq::<Seq<char>>::empty()),
                Seq::<FieldView>::empty(),
                Seq::<Seq<char>>::empty(),
            ),
            (
                ("comment"@, ParamKind::String, "Optional comment to add during transition"@, Option::<ParamKind>::None, Option::<ParamKind>::None, Seq::<Seq<char>>::empty()),
                Seq::<FieldView>::empty(),
                Seq::<Seq<char>>::empty(),
            ),
        ],
        seq!["issue_key"@, "transition_id"@],
    )
}

/// The `transition_jira_issue` tool.
pub(crate) fn transition_jira_issue_tool() -> (t: ToolSpec)
    ensures
        tool_view(t) == transition_jira_issue_spec(),
        schema_well_formed(t),
{
    let mut params: Vec<ToolParam> = Vec::new();
    push_param(&mut params, param("issue_key", ParamKind::String, "The key of the issue to transition"));
    push_param(&mut params, param("transition_id", ParamKind::String, "The ID of the transition to apply"));
    push_param(&mut params, param("comment", ParamKind::String, "Optional comment to add during transition"));
    let mut required: Vec<&'static str> = Vec::new();
    required.push("issue_key");
    required.push("transition_id");
    let t = ToolSpec { name: "transition_jira_issue", description: "Transition a Jira issue to a new status", params, required };
    assert(param_names(t.params@) =~= seq!["issue_key"@, "transition_id"@, "comment"@]);
    assert(required_names(t) =~= seq!["issue_key"@, "transition_id"@]);
    assert forall|j: int| 0 <= j < required_names(t).len() implies param_names(t.params@).contains(#[trigger] required_names(t)[j]) by {
        if j == 0 {
            assert(param_names(t.params@)[0] == required_names(t)[0]);
        } else if j == 1 {
            assert(param_names(t.params@)[1] == required_names(t)[1]);
        }
    }
    assert(tool_view(t) =~~= transition_jira_issue_spec());
    t
}

/// The schema of the `get_project_config` tool.
pub open spec fn get_project_config_spec() -> ToolView {
    (
        "get_project_config"@,
        "Get project configuration details"@,
        seq![
            (
                ("project_key"@, ParamKind::String, "The key of the project to get configuration for"@, Option::<ParamKind>::None, Option::<ParamKind>::None, Seq::<Seq<char>>::empty()),
                Seq::<FieldView>::empty(),
                Seq::<Seq<char>>::empty(),
            ),
        ],
        seq!["project_key"@],
    )
}

/// The `get_project_config` tool.
pub(crate) fn get_project_config_tool() -> (t: ToolSpec)
    ensures
        tool_view(t) == get_project_config_spec(),
        schema_well_formed(t),
{
    let mut params: Vec<ToolParam> = Vec::new();
    push_param(&mut params, param("project_key", ParamKind::String, "The key of the project to get configuration for"));
    let mut required: Vec<&'static str> = Vec::new();
    required.push("project_key");
    let t = ToolSpec { name: "get_project_config", description: "Get project configuration details", params, required };
    assert(param_names(t.params@) =~= seq!["project_key"@]);
    assert(required_names(t) =~= seq!["project_key"@]);
    assert forall|j: int| 0 <= j < required_names(t).len() implies param_names(t.params@).contains(#[trigger] required_names(t)[j]) by {
        if j == 0 {
            assert(param_names(t.params@)[0] == required_names(t)[0]);
        }
    }
    assert(tool_view(t) =~~= get_project_config_spec());
    t
}

/// The schema of the `get_project_issue_types` tool.
pub open spec fn get_project_issue_types_spec() -> ToolView {
    (
        "get_project_issue_types"@,
        "Get issue types for a specific project"@,
        seq![
            (
                ("project_key"@, ParamKind::String, "The key of the project to get issue types for"@, Option::<ParamKind>::None, Option::<ParamKind>::None, Seq::<Seq<char>>::empty()),
                Seq::<FieldView>::empty(),
                Seq::<Seq<char>>::empty(),
            ),
        ],
        seq!["project_key"@],
    )
}

/// The `get_project_issue_types` tool.
pub(crate) fn get_project_issue_types_tool() -> (t: ToolSpec)
    ensures
        tool_view(t) == get_project_issue_types_spec(),
        schema_well_formed(t),
{
    let mut params: Vec<ToolParam> = Vec::new();
    push_param(&mut params, param("project_key", ParamKind::String, "The key of the project to get issue types for"));
    let mut required: Vec<&'static str> = Vec::new();
    required.push("project_key");
    let t = ToolSpec { name: "get_project_issue_types", description: "Get issue types for a specific project", params, required };
    assert(param_names(t.params@) =~= seq!["project_key"@]);
    assert(required_names(t) =~= seq!["project_key"@]);
    assert forall|j: int| 0 <= j < required_names(t).len() implies param_names(t.params@).contains(#[trigger] required_names(t)[j]) by {
        if j == 0 {
            assert(param_names(t.params@)[0] == required_names(t)[0]);
        }
    }
    assert(tool_view(t) =~~= get_project_issue_types_spec());
    t
}

/// The schema of the `get_issue_type_metadata` tool.
pub open spec fn get_issue_type_metadata_spec() -> ToolView {
    (
        "get_issue_type_metadata"@,
        "Get detailed metadata for a specific issue type"@,
        seq![
            (
                ("issue_type_id"@, ParamKind::String, "The ID of the issue type to get metadata for"@, Option::<ParamKind>::None, Option::<ParamKind>::None, Seq::<Seq<char>>::empty()),
                Seq::<FieldView>::empty(),
                Seq::<Seq<char>>::empty(),
            ),
        ],
        seq!["issue_type_id"@],
    )
}

/// The `get_issue_type_metadata` tool.
pub(crate) fn get_issue_type_metadata_tool() -> (t: ToolSpec)
    ensures
        tool_view(t) == get_issue_type_metadata_spec(),
        schema_well_formed(t),
{
    let mut params: Vec<ToolParam> = Vec::new();
    push_param(&mut params, param("issue_type_id", ParamKind::String, "The ID of the issue type to get metadata for"));
    let mut required: Vec<&'static str> = Vec::new();
    required.push("issue_type_id");
    let t = ToolSpec { name: "get_issue_type_metadata", description: "Get detailed metadata for a specific issue type", params, required };
    assert(param_names(t.params@) =~= seq!["issue_type_id"@]);
    assert(required_names(t) =~= seq!["issue_type_id"@]);
    assert forall|j: int| 0 <= j < required_names(t).len() implies param_names(t.params@).contains(#[trigger] required_names(t)[j]) by {
        if j == 0 {
            assert(param_names(t.params@)[0] == required_names(t)[0]);
        }
    }
    assert(tool_view(t) =~~= get_issue_type_metadata_spec());
    t
}

/// The schema of the `get_project_components` tool.
pub open spec fn get_project_components_spec() -> ToolView {
    (
        "get_project_components"@,
        "Get components for a specific project"@,
        seq![
            (
                ("project_key"@, ParamKind::String, "The key of the project to get components for"@, Option::<ParamKind>::None, Option::<ParamKind>::None, Seq::<Seq<char>>::empty()),
                Seq::<FieldView>::empty(),
                Seq::<Seq<char>>::empty(),
            ),
        ],
        seq!["project_key"@],
    )
}

/// The `get_project_components` tool.
pub(crate) fn get_project_components_tool() -> (t: ToolSpec)
    ensures
        tool_view(t) == get_project_components_spec(),
        schema_well_formed(t),
{
    let mut params: Vec<ToolParam> = Vec::new();
    push_param(&mut params, param("project_key", ParamKind::String, "The key of the project to get components for"));
    let mut required: Vec<&'static str> = Vec::new();
    required.push("project_key");
    let t = ToolSpec { name: "get_project_components", description: "Get components for a specific project", params, required };
    assert(param_names(t.params@) =~= seq!["project_key"@]);
    assert(required_names(t) =~= seq!["project_key"@]);
    assert forall|j: int| 0 <= j < required_names(t).len() implies param_names(t.params@).contains(#[trigger] required_names(t)[j]) by {
        if j == 0 {
            assert(param_names(t.params@)[0] == required_names(t)[0]);
        }
    }
    assert(tool_view(t) =~~= get_project_components_spec());
    t
}

/// The schema of the `get_priorities_and_statuses` tool.
pub open spec fn get_priorities_and_statuses_spec() -> ToolView {
    (
        "get_priorities_and_statuses"@,
        "Get all priorities and statuses available in Jira"@,
        Seq::<ParamView>::empty(),
        Seq::<Seq<char>>::empty(),
    )
}

/// The `get_priorities_and_statuses` tool.
pub(crate) fn get_priorities_and_statuses_tool() -> (t: ToolSpec)
    ensures
        tool_view(t) == get_priorities_and_statuses_spec(),
        schema_well_formed(t),
{
    let params: Vec<ToolParam> = Vec::new();
    let required: Vec<&'static str> = Vec::new();
    let t = ToolSpec { name: "get_priorities_and_statuses", description: "Get all priorities and statuses available in Jira", params, required };
    assert(param_names(t.params@) =~= Seq::<Seq<char>>::empty());
    assert(required_names(t) =~= Seq::<Seq<char>>::empty());
    assert(tool_view(t) =~~= get_priorities_and_statuses_spec());
    t
}

/// The schema of the `get_custom_fields` tool.
pub open spec fn get_custom_fields_spec() -> ToolView {
    (
        "get_custom_fields"@,
        "Get all custom fields available in Jira"@,
        Seq::<ParamView>::empty(),
        Seq::<Seq<char>>::empty(),
    )
}

/// The `get_custom_fields` tool.
pub(crate) fn get_custom_fields_tool() -> (t: ToolSpec)
    ensures
        tool_view(t) == get_custom_fields_spec(),
        schema_well_formed(t),
{
    let params: Vec<ToolParam> = Vec::new();
    let required: Vec<&'static str> = Vec::new();
    let t = ToolSpec { name: "get_custom_fields", description: "Get all custom fields available in Jira", params, required };
    assert(param_names(t.params@) =~= Seq::<Seq<char>>::empty());
    assert(required_names(t) =~= Seq::<Seq<char>>::empty());
    assert(tool_view(t) =~~= get_custom_fields_spec());
    t
}

/// The schema of the `get_project_metadata` tool.
pub open spec fn get_project_metadata_spec() -> ToolView {
    (
        "get_project_metadata"@,
        "Get comprehensive project metadata including configuration, issue types, components, priorities, statuses, and custom fields"@,
        seq![
            (
                ("project_key"@, ParamKind::String, "The key of the project to get comprehensive metadata for"@, Option::<ParamKind>::None, Option::<ParamKind>::None, Seq::<Seq<char>>::empty()),
                Seq::<FieldView>::empty(),
                Seq::<Seq<char>>::empty(),
            ),
        ],
        seq!["project_key"@],
    )
}

/// The `get_project_metadata` tool.
pub(crate) fn get_project_metadata_tool() -> (t: ToolSpec)
    ensures
        tool_view(t) == get_project_metadata_spec(),
        schema_well_formed(t),
{
    let mut params: Vec<ToolParam> = Vec::new();
    push_param(&mut params, param("project_key", ParamKind::String, "The key of the project to get comprehensive metadata for"));
    let mut required: Vec<&'static str> = Vec::new();
    required.push("project_key");
    let t = ToolSpec { name: "get_project_metadata", description: "Get comprehensive project metadata including configuration, issue types, components, priorities, statuses, and custom fields", params, required };
    assert(param_names(t.params@) =~= seq!["project_key"@]);
    assert(required_names(t) =~= seq!["project_key"@]);
    assert forall|j: int| 0 <= j < required_names(t).len() implies param_names(t.params@).contains(#[trigger] required_names(t)[j]) by {
        if j == 0 {
            assert(param_names(t.params@)[0] == required_names(t)[0]);
        }
    }
    assert(tool_view(t) =~~= get_project_metadata_spec());
    t
}

/// The schema of the `bulk_update_issues` tool.
pub open spec fn bulk_update_issues_spec() -> ToolView {
    (
        "bulk_update_issues"@,
        "Bulk update multiple Jira issues with the same fields"@,
        seq![
            (
                ("issue_keys"@, ParamKind::Array, "Array of issue keys to update"@, Option::<ParamKind>::Some(ParamKind::String), Option::<ParamKind>::None, Seq::<Seq<char>>::empty()),
                Seq::<FieldView>::empty(),
                Seq::<Seq<char>>::empty(),
            ),
            (
                ("fields"@, ParamKind::Object, "The fields to update on all issues"@, Option::<ParamKind>::None, Option::<ParamKind>::None, Seq::<Seq<char>>::empty()),
                Seq::<FieldView>::empty(),
                Seq::<Seq<char>>::empty(),
            ),
            (
                ("config"@, ParamKind::Object, "Optional configuration for batch processing"@, Option::<ParamKind>::None, Option::<ParamKind>::None, Seq::<Seq<char>>::empty()),
                seq![
                    ("batch_size"@, ParamKind::Integer, "Number of issues to process per batch"@, Option::<ParamKind>::None, Option::<ParamKind>::None, Seq::<Seq<char>>::empty()),
                    ("continue_on_error"@, ParamKind::Boolean, "Whether to continue processing if individual operations fail"@, Option::<ParamKind>::None, Option::<ParamKind>::None, Seq::<Seq<char>>::empty()),
                    ("rate_limit_ms"@, ParamKind::Integer, "Delay between operations in milliseconds"@, Option::<ParamKind>::None, Option::<ParamKind>::None, Seq::<Seq<char>>::empty()),
                    ("max_retries"@, ParamKind::Integer, "Maximum number of retries for failed operations"@, Option::<ParamKind>::None, Option::<ParamKind>::None, Seq::<Seq<char>>::empty()),
                ],
                Seq::<Seq<char>>::empty(),
            ),
        ],
        seq!["issue_keys"@, "fields"@],
    )
}

/// The `bulk_update_issues` tool.
pub(crate) fn bulk_update_issues_tool() -> (t: ToolSpec)
    ensures
        tool_view(t) == bulk_update_issues_spec(),
        schema_well_formed(t),
{
    let mut params: Vec<ToolParam> = Vec::new();
    push_param(&mut params, list_param("issue_keys", ParamKind::String, "Array of issue keys to update"));
    push_param(&mut params, param("fields", ParamKind::Object, "The fields to update on all issues"));
    let choices1: Vec<&'static str> = Vec::new();
    let mut fields1: Vec<ToolParam> = Vec::new();
    push_param(&mut fields1, param("batch_size", ParamKind::Integer, "Number of issues to process per batch"));
    push_param(&mut fields1, param("continue_on_error", ParamKind::Boolean, "Whether to continue processing if individual operations fail"));
    push_param(&mut fields1, param("rate_limit_ms", ParamKind::Integer, "Delay between operations in milliseconds"));
    push_param(&mut fields1, param("max_retries", ParamKind::Integer, "Maximum number of retries for failed operations"));
    let required1: Vec<&'static str> = Vec::new();
    let p1 = ToolParam {
        name: "config",
        kind: ParamKind::Object,
        description: "Optional configuration for batch processing",
        items: None,
        choices: choices1,
        fields: fields1,
        required_fields: required1,
        values: None,
    };
    assert(param_names(p1.fields@) =~= seq!["batch_size"@, "continue_on_error"@, "rate_limit_ms"@, "max_retries"@]);
    push_param(&mut params, p1);
    let mut required: Vec<&'static str> = Vec::new();
    required.push("issue_keys");
    required.push("fields");
    let t = ToolSpec { name: "bulk_update_issues", description: "Bulk update multiple Jira issues with the same fields", params, required };
    assert(param_names(t.params@) =~= seq!["issue_keys"@, "fields"@, "config"@]);
    assert(required_names(t) =~= seq!["issue_keys"@, "fields"@]);
    assert forall|j: int| 0 <= j < required_names(t).len() implies param_names(t.params@).contains(#[trigger] required_names(t)[j]) by {
        if j == 0 {
            assert(param_names(t.params@)[0] == required_names(t)[0]);
        } else if j == 1 {
            assert(param_names(t.params@)[1] == required_names(t)[1]);
        }
    }
    assert(tool_view(t) =~~= bulk_update_issues_spec());
    t
}

/// The schema of the `bulk_transition_issues` tool.
pub open spec fn bulk_transition_issues_spec() -> ToolView {
    (
        "bulk_transition_issues"@,
        "Bulk transition multiple Jira issues to the same status"@,
        seq![
            (
                ("issue_keys"@, ParamKind::Array, "Array of issue keys to transition"@, Option::<ParamKind>::Some(ParamKind::String), Option::<ParamKind>::None, Seq::<Seq<char>>::empty()),
                Seq::<FieldView>::empty(),
                Seq::<Seq<char>>::empty(),
            ),
            (
                ("transition_id"@, ParamKind::String, "The ID of the transition to apply to all issues"@, Option::<ParamKind>::None, Option::<ParamKind>::None, Seq::<Seq<char>>::empty()),
                Seq::<FieldView>::empty(),
                Seq::<Seq<char>>::empty(),
            ),
            (
                ("comment"@, ParamKind::String, "Optional comment to add during transition"@, Option::<ParamKind>::None, Option::<ParamKind>::None, Seq::<Seq<char>>::empty()),
                Seq::<FieldView>::empty(),
                Seq::<Seq<char>>::empty(),
            ),
            (
                ("config"@, ParamKind::Object, "Optional configuration for batch processing"@, Option::<ParamKind>::None, Option::<ParamKind>::None, Seq::<Seq<char>>::empty()),
                seq![
                    ("batch_size"@, ParamKind::Integer, "Number of issues to process per batch"@, Option::<ParamKind>::None, Option::<ParamKind>::None, Seq::<Seq<char>>::empty()),
                    ("continue_on_error"@, ParamKind::Boolean, "Whether to continue processing if individual operations fail"@, Option::<ParamKind>::None, Option::<ParamKind>::None, Seq::<Seq<char>>::empty()),
                    ("rate_limit_ms"@, ParamKind::Integer, "Delay between operations in milliseconds"@, Option::<ParamKind>::None, Option::<ParamKind>::None, Seq::<Seq<char>>::empty()),
                    ("max_retries"@, ParamKind::Integer, "Maximum number of retries for failed operations"@, Option::<ParamKind>::None, Option::<ParamKind>::None, Seq::<Seq<char>>::empty()),
                ],
                Seq::<Seq<char>>::empty(),
            ),
        ],
        seq!["issue_keys"@, "transition_id"@],
    )
}

/// The `bulk_transition_issues` tool.
pub(crate) fn bulk_transition_issues_tool() -> (t: ToolSpec)
    ensures
        tool_view(t) == bulk_transition_issues_spec(),
        schema_well_formed(t),
{
    let mut params: Vec<ToolParam> = Vec::new();
    push_param(&mut params, list_param("issue_keys", ParamKind::String, "Array of issue keys to transition"));
    push_param(&mut params, param("transition_id", ParamKind::String, "The ID of the transition to apply to all issues"));
    push_param(&mut params, param("comment", ParamKind::String, "Optional comment to add during transition"));
    let choices2: Vec<&'static str> = Vec::new();
    let mut fields2: Vec<ToolParam> = Vec::new();
    push_param(&mut fields2, param("batch_size", ParamKind::Integer, "Number of issues to process per batch"));
    push_param(&mut fields2, param("continue_on_error", ParamKind::Boolean, "Whether to continue processing if individual operations fail"));
    push_param(&mut fields2, param("rate_limit_ms", ParamKind::Integer, "Delay between operations in milliseconds"));
    push_param(&mut fields2, param("max_retries", ParamKind::Integer, "Maximum number of retries for failed operations"));
    let required2: Vec<&'static str> = Vec::new();
    let p2 = ToolParam {
        name: "config",
        kind: ParamKind::Object,
        description: "Optional configuration for batch processing",
        items: None,
        choices: choices2,
        fields: fields2,
        required_fields: required2,
        values: None,
    };
    assert(param_names(p2.fields@) =~= seq!["batch_size"@, "continue_on_error"@, "rate_limit_ms"@, "max_retries"@]);
    push_param(&mut params, p2);
    let mut required: Vec<&'static str> = Vec::new();
    required.push("issue_keys");
    required.push("transition_id");
    let t = ToolSpec { name: "bulk_transition_issues", description: "Bulk transition multiple Jira issues to the same status", params, required };
    assert(param_names(t.params@) =~= seq!["issue_keys"@, "transition_id"@, "comment"@, "config"@]);
    assert(required_names(t) =~= seq!["issue_keys"@, "transition_id"@]);
    assert forall|j: int| 0 <= j < required_names(t).len() implies param_names(t.params@).contains(#[trigger] required_names(t)[j]) by {
        if j == 0 {
            assert(param_names(t.params@)[0] == required_names(t)[0]);
        } else if j == 1 {
            assert(param_names(t.params@)[1] == required_names(t)[1]);
        }
    }
    assert(tool_view(t) =~~= bulk_transition_issues_spec());
    t
}

/// The schema of the `bulk_add_comments` tool.
pub open spec fn bulk_add_comments_spec() -> ToolView {
    (
        "bulk_add_comments"@,
        "Bulk add the same comment to multiple Jira issues"@,
        seq![
            (
                ("issue_keys"@, ParamKind::Array, "Array of issue keys to add comments to"@, Option::<ParamKind>::Some(ParamKind::String), Option::<ParamKind>::None, Seq::<Seq<char>>::empty()),
                Seq::<FieldView>::empty(),
                Seq::<Seq<char>>::empty(),
            ),
            (
                ("comment_body"@, ParamKind::String, "The comment text to add to all issues"@, Option::<ParamKind>::None, Option::<ParamKind>::None, Seq::<Seq<char>>::empty()),
                Seq::<FieldView>::empty(),
                Seq::<Seq<char>>::empty(),
            ),
            (
                ("config"@, ParamKind::Object, "Optional configuration for batch processing"@, Option::<ParamKind>::None, Option::<ParamKind>::None, Seq::<Seq<char>>::empty()),
                seq![
                    ("batch_size"@, ParamKind::Integer, "Number of issues to process per batch"@, Option::<ParamKind>::None, Option::<ParamKind>::None, Seq::<Seq<char>>::empty()),
                    ("continue_on_error"@, ParamKind::Boolean, "Whether to continue processing if individual operations fail"@, Option::<ParamKind>::None, Option::<ParamKind>::None, Seq::<Seq<char>>::empty()),
                    ("rate_limit_ms"@, ParamKind::Integer, "Delay between operations in milliseconds"@, Option::<ParamKind>::None, Option::<ParamKind>::None, Seq::<Seq<char>>::empty()),
                    ("max_retries"@, ParamKind::Integer, "Maximum number of retries for failed operations"@, Option::<ParamKind>::None, Option::<ParamKind>::None, Seq::<Seq<char>>::empty()),
                ],
                Seq::<Seq<char>>::empty(),
            ),
        ],
        seq!["issue_keys"@, "comment_body"@],
    )
}

/// The `bulk_add_comments` tool.
pub(crate) fn bulk_add_comments_tool() -> (t: ToolSpec)
    ensures
        tool_view(t) == bulk_add_comments_spec(),
        schema_well_formed(t),
{
    let mut params: Vec<ToolParam> = Vec::new();
    push_param(&mut params, list_param("issue_keys", ParamKind::String, "Array of issue keys to add comments to"));
    push_param(&mut params, param("comment_body", ParamKind::String, "The comment text to add to all issues"));
    let choices3: Vec<&'static str> = Vec::new();
    let mut fields3: Vec<ToolParam> = Vec::new();
    push_param(&mut fields3, param("batch_size", ParamKind::Integer, "Number of issues to process per batch"));
    push_param(&mut fields3, param("continue_on_error", ParamKind::Boolean, "Whether to continue processing if individual operations fail"));
    push_param(&mut fields3, param("rate_limit_ms", ParamKind::Integer, "Delay between operations in milliseconds"));
    push_param(&mut fields3, param("max_retries", ParamKind::Integer, "Maximum number of retries for failed operations"));
    let required3: Vec<&'static str> = Vec::new();
    let p3 = ToolParam {
        name: "config",
        kind: ParamKind::Object,
        description: "Optional configuration for batch processing",
        items: None,
        choices: choices3,
        fields: fields3,
        required_fields: required3,
        values: None,
    };
    assert(param_names(p3.fields@) =~= seq!["batch_size"@, "continue_on_error"@, "rate_limit_ms"@, "max_retries"@]);
    push_param(&mut params, p3);
    let mut required: Vec<&'static str> = Vec::new();
    required.push("issue_keys");
    required.push("comment_body");
    let t = ToolSpec { name: "bulk_add_comments", description: "Bulk add the same comment to multiple Jira issues", params, required };
    assert(param_names(t.params@) =~= seq!["issue_keys"@, "comment_body"@, "config"@]);
    assert(required_names(t) =~= seq!["issue_keys"@, "comment_body"@]);
    assert forall|j: int| 0 <= j < required_names(t).len() implies param_names(t.params@).contains(#[trigger] required_names(t)[j]) by {
        if j == 0 {
            assert(param_names(t.params@)[0] == required_names(t)[0]);
        } else if j == 1 {
            assert(param_names(t.params@)[1] == required_names(t)[1]);
        }
    }
    assert(tool_view(t) =~~= bulk_add_comments_spec());
    t
}

/// The schema of the `mixed_bulk_operations` tool.
pub open spec fn mixed_bulk_operations_spec() -> ToolView {
    (
        "mixed_bulk_operations"@,
        "Execute mixed bulk operations on multiple Jira issues (update, transition, add comments, or mixed operations)"@,
        seq![
            (
                ("operations"@, ParamKind::Array, "Array of operation objects"@, Option::<ParamKind>::Some(ParamKind::Object), Option::<ParamKind>::None, Seq::<Seq<char>>::empty()),
                seq![
                    ("issue_key"@, ParamKind::String, "The issue key for this operation"@, Option::<ParamKind>::None, Option::<ParamKind>::None, Seq::<Seq<char>>::empty()),
                    ("operation_type"@, ParamKind::String, "The type of operation to perform"@, Option::<ParamKind>::None, Option::<ParamKind>::None, seq!["update"@, "transition"@, "add_comment"@, "mixed"@]),
                    ("data"@, ParamKind::Object, "The data for the operation (fields for update, transition_id for transition, comment_body for add_comment)"@, Option::<ParamKind>::None, Option::<ParamKind>::None, Seq::<Seq<char>>::empty()),
                ],
                seq!["issue_key"@, "operation_type"@, "data"@],
            ),
            (
                ("config"@, ParamKind::Object, "Optional configuration for batch processing"@, Option::<ParamKind>::None, Option::<ParamKind>::None, Seq::<Seq<char>>::empty()),
                seq![
                    ("batch_size"@, ParamKind::Integer, "Number of issues to process per batch"@, Option::<ParamKind>::None, Option::<ParamKind>::None, Seq::<Seq<char>>::empty()),
                    ("continue_on_error"@, ParamKind::Boolean, "Whether to continue processing if individual operations fail"@, Option::<ParamKind>::None, Option::<ParamKind>::None, Seq::<Seq<char>>::empty()),
                    ("rate_limit_ms"@, ParamKind::Integer, "Delay between operations in milliseconds"@, Option::<ParamKind>::None, Option::<ParamKind>::None, Seq::<Seq<char>>::empty()),
                    ("max_retries"@, ParamKind::Integer, "Maximum number of retries for failed operations"@, Option::<ParamKind>::None, Option::<ParamKind>::None, Seq::<Seq<char>>::empty()),
                ],
                Seq::<Seq<char>>::empty(),
            ),
        ],
        seq!["operations"@],
    )
}

/// The `mixed_bulk_operations` tool.
pub(crate) fn mixed_bulk_operations_tool() -> (t: ToolSpec)
    ensures
        tool_view(t) == mixed_bulk_operations_spec(),
        schema_well_formed(t),
{
    let mut params: Vec<ToolParam> = Vec::new();
    let choices4: Vec<&'static str> = Vec::new();
    let mut fields4: Vec<ToolParam> = Vec::new();
    push_param(&mut fields4, param("issue_key", ParamKind::String, "The issue key for this operation"));
    let mut choices5: Vec<&'static str> = Vec::new();
    choices5.push("update");
    choices5.push("transition");
    choices5.push("add_comment");
    choices5.push("mixed");
    let fields5: Vec<ToolParam> = Vec::new();
    let required5: Vec<&'static str> = Vec::new();
    let p5 = ToolParam {
        name: "operation_type",
        kind: ParamKind::String,
        description: "The type of operation to perform",
        items: None,
        choices: choices5,
        fields: fields5,
        required_fields: required5,
        values: None,
    };
    push_param(&mut fields4, p5);
    push_param(&mut fields4, param("data", ParamKind::Object, "The data for the operation (fields for update, transition_id for transition, comment_body for add_comment)"));
    let mut required4: Vec<&'static str> = Vec::new();
    required4.push("issue_key");
    required4.push("operation_type");
    required4.push("data");
    let p4 = ToolParam {
        name: "operations",
        kind: ParamKind::Array,
        description: "Array of operation objects",
        items: Some(ParamKind::Object),
        choices: choices4,
        fields: fields4,
        required_fields: required4,
        values: None,
    };
    assert(param_names(p4.fields@) =~= seq!["issue_key"@, "operation_type"@, "data"@]);
    assert(str_views(p4.required_fields@) =~= seq!["issue_key"@, "operation_type"@, "data"@]);
    assert forall|j: int| 0 <= j < str_views(p4.required_fields@).len() implies param_names(p4.fields@).contains(#[trigger] str_views(p4.required_fields@)[j]) by {
        if j == 0 {
            assert(param_names(p4.fields@)[0] == str_views(p4.required_fields@)[0]);
        } else if j == 1 {
            assert(param_names(p4.fields@)[1] == str_views(p4.required_fields@)[1]);
        } else if j == 2 {
            assert(param_names(p4.fields@)[2] == str_views(p4.required_fields@)[2]);
        }
    }
    push_param(&mut params, p4);
    let choices6: Vec<&'static str> = Vec::new();
    let mut fields6: Vec<ToolParam> = Vec::new();
    push_param(&mut fields6, param("batch_size", ParamKind::Integer, "Number of issues to process per batch"));
    push_param(&mut fields6, param("continue_on_error", ParamKind::Boolean, "Whether to continue processing if individual operations fail"));
    push_param(&mut fields6, param("rate_limit_ms", ParamKind::Integer, "Delay between operations in milliseconds"));
    push_param(&mut fields6, param("max_retries", ParamKind::Integer, "Maximum number of retries for failed operations"));
    let required6: Vec<&'static str> = Vec::new();
    let p6 = ToolParam {
        name: "config",
        kind: ParamKind::Object,
        description: "Optional configuration for batch processing",
        items: None,
        choices: choices6,
        fields: fields6,
        required_fields: required6,
        values: None,
    };
    assert(param_names(p6.fields@) =~= seq!["batch_size"@, "continue_on_error"@, "rate_limit_ms"@, "max_retries"@]);
    push_param(&mut params, p6);
    let mut required: Vec<&'static str> = Vec::new();
    required.push("operations");
    let t = ToolSpec { name: "mixed_bulk_operations", description: "Execute mixed bulk operations on multiple Jira issues (update, transition, add comments, or mixed operations)", params, required };
    assert(param_names(t.params@) =~= seq!["operations"@, "config"@]);
    assert(required_names(t) =~= seq!["operations"@]);
    assert forall|j: int| 0 <= j < required_names(t).len() implies param_names(t.params@).contains(#[trigger] required_names(t)[j]) by {
        if j == 0 {
            assert(param_names(t.params@)[0] == required_names(t)[0]);
        }
    }
    assert(tool_view(t) =~~= mixed_bulk_operations_spec());
    t
}

/// The schema of the `get_zephyr_test_steps` tool.
pub open spec fn get_zephyr_test_steps_spec() -> ToolView {
    (
        "get_zephyr_test_steps"@,
        "Get test steps for a Zephyr test case"@,
        seq![
            (
                ("test_case_id"@, ParamKind::String, "The ID of the test case to get steps for"@, Option::<ParamKind>::None, Option::<ParamKind>::None, Seq::<Seq<char>>::empty()),
                Seq::<FieldView>::empty(),
                Seq::<Seq<char>>::empty(),
            ),
        ],
        seq!["test_case_id"@],
    )
}

/// The `get_zephyr_test_steps` tool.
pub(crate) fn get_zephyr_test_steps_tool() -> (t: ToolSpec)
    ensures
        tool_view(t) == get_zephyr_test_steps_spec(),
        schema_well_formed(t),
{
    let mut params: Vec<ToolParam> = Vec::new();
    push_param(&mut params, param("test_case_id", ParamKind::String, "The ID of the test case to get steps for"));
    let mut required: Vec<&'static str> = Vec::new();
    required.push("test_case_id");
    let t = ToolSpec { name: "get_zephyr_test_steps", description: "Get test steps for a Zephyr test case", params, required };
    assert(param_names(t.params@) =~= seq!["test_case_id"@]);
    assert(required_names(t) =~= seq!["test_case_id"@]);
    assert forall|j: int| 0 <= j < required_names(t).len() implies param_names(t.params@).contains(#[trigger] required_names(t)[j]) by {
        if j == 0 {
            assert(param_names(t.params@)[0] == required_names(t)[0]);
        }
    }
    assert(tool_view(t) =~~= get_zephyr_test_steps_spec());
    t
}

/// The schema of the `create_zephyr_test_step` tool.
pub open spec fn create_zephyr_test_step_spec() -> ToolView {
    (
        "create_zephyr_test_step"@,
        "Create a new test step in a Zephyr test case"@,
        seq![
            (
                ("test_case_id"@, ParamKind::String, "The ID of the test case to add the step to"@, Option::<ParamKind>::None, Option::<ParamKind>::None, Seq::<Seq<char>>::empty()),
                Seq::<FieldView>::empty(),
                Seq::<Seq<char>>::empty(),
            ),
            (
                ("step"@, ParamKind::String, "The test step description"@, Option::<ParamKind>::None, Option::<ParamKind>::None, Seq::<Seq<char>>::empty()),
                Seq::<FieldView>::empty(),
                Seq::<Seq<char>>::empty(),
            ),
            (
                ("order"@, ParamKind::Integer, "The order of the test step"@, Option::<ParamKind>::None, Option::<ParamKind>::None, Seq::<Seq<char>>::empty()),
                Seq::<FieldView>::empty(),
                Seq::<Seq<char>>::empty(),
            ),
            (
                ("data"@, ParamKind::String, "Optional test data for the step"@, Option::<ParamKind>::None, Option::<ParamKind>::None, Seq::<Seq<char>>::empty()),
                Seq::<FieldView>::empty(),
                Seq::<Seq<char>>::empty(),
            ),
            (
                ("result"@, ParamKind::String, "Optional expected result for the step"@, Option::<ParamKind>::None, Option::<ParamKind>::None, Seq::<Seq<char>>::empty()),
                Seq::<FieldView>::empty(),
                Seq::<Seq<char>>::empty(),
            ),
        ],
        seq!["test_case_id"@, "step"@, "order"@],
    )
}

/// The `create_zephyr_test_step` tool.
pub(crate) fn create_zephyr_test_step_tool() -> (t: ToolSpec)
    ensures
        tool_view(t) == create_zephyr_test_step_spec(),
        schema_well_formed(t),
{
    let mut params: Vec<ToolParam> = Vec::new();
    push_param(&mut params, param("test_case_id", ParamKind::String, "The ID of the test case to add the step to"));
    push_param(&mut params, param("step", ParamKind::String, "The test step description"));
    push_param(&mut params, param("order", ParamKind::Integer, "The order of the test step"));
    push_param(&mut params, param("data", ParamKind::String, "Optional test data for the step"));
    push_param(&mut params, param("result", ParamKind::String, "Optional expected result for the step"));
    let mut required: Vec<&'static str> = Vec::new();
    required.push("test_case_id");
    required.push("step");
    required.push("order");
    let t = ToolSpec { name: "create_zephyr_test_step", description: "Create a new test step in a Zephyr test case", params, required };
    assert(param_names(t.params@) =~= seq!["test_case_id"@, "step"@, "order"@, "data"@, "result"@]);
    assert(required_names(t) =~= seq!["test_case_id"@, "step"@, "order"@]);
    assert forall|j: int| 0 <= j < required_names(t).len() implies param_names(t.params@).contains(#[trigger] required_names(t)[j]) by {
        if j == 0 {
            assert(param_names(t.params@)[0] == required_names(t)[0]);
        } else if j == 1 {
            assert(param_names(t.params@)[1] == required_names(t)[1]);
        } else if j == 2 {
            assert(param_names(t.params@)[2] == required_names(t)[2]);
        }
    }
    assert(tool_view(t) =~~= create_zephyr_test_step_spec());
    t
}

/// The schema of the `update_zephyr_test_step` tool.
pub open spec fn update_zephyr_test_step_spec() -> ToolView {
    (
        "update_zephyr_test_step"@,
        "Update an existing test step in a Zephyr test case"@,
        seq![
            (
                ("test_case_id"@, ParamKind::String, "The ID of the test case containing the step"@, Option::<ParamKind>::None, Option::<ParamKind>::None, Seq::<Seq<char>>::empty()),
                Seq::<FieldView>::empty(),
                Seq::<Seq<char>>::empty(),
            ),
            (
                ("step_id"@, ParamKind::String, "The ID of the test step to update"@, Option::<ParamKind>::None, Option::<ParamKind>::None, Seq::<Seq<char>>::empty()),
                Seq::<FieldView>::empty(),
                Seq::<Seq<char>>::empty(),
            ),
            (
                ("step"@, ParamKind::String, "The updated test step description"@, Option::<ParamKind>::None, Option::<ParamKind>::None, Seq::<Seq<char>>::empty()),
                Seq::<FieldView>::empty(),
                Seq::<Seq<char>>::empty(),
            ),
            (
                ("order"@, ParamKind::Integer, "The updated order of the test step"@, Option::<ParamKind>::None, Option::<ParamKind>::None, Seq::<Seq<char>>::empty()),
                Seq::<FieldView>::empty(),
                Seq::<Seq<char>>::empty(),
            ),
            (
                ("data"@, ParamKind::String, "The updated test data for the step"@, Option::<ParamKind>::None, Option::<ParamKind>::None, Seq::<Seq<char>>::empty()),
                Seq::<FieldView>::empty(),
                Seq::<Seq<char>>::empty(),
            ),
            (
                ("result"@, ParamKind::String, "The updated expected result for the step"@, Option::<ParamKind>::None, Option::<ParamKind>::None, Seq::<Seq<char>>::empty()),
                Seq::<FieldView>::empty(),
                Seq::<Seq<char>>::empty(),
            ),
        ],
        seq!["test_case_id"@, "step_id"@],
    )
}

/// The `update_zephyr_test_step` tool.
pub(crate) fn update_zephyr_test_step_tool() -> (t: ToolSpec)
    ensures
        tool_view(t) == update_zephyr_test_step_spec(),
        schema_well_formed(t),
{
    let mut params: Vec<ToolParam> = Vec::new();
    push_param(&mut params, param("test_case_id", ParamKind::String, "The ID of the test case containing the step"));
    push_param(&mut params, param("step_id", ParamKind::String, "The ID of the test step to update"));
    push_param(&mut params, param("step", ParamKind::String, "The updated test step description"));
    push_param(&mut params, param("order", ParamKind::Integer, "The updated order of the test step"));
    push_param(&mut params, param("data", ParamKind::String, "The updated test data for the step"));
    push_param(&mut params, param("result", ParamKind::String, "The updated expected result for the step"));
    let mut required: Vec<&'static str> = Vec::new();
    required.push("test_case_id");
    required.push("step_id");
    let t = ToolSpec { name: "update_zephyr_test_step", description: "Update an existing test step in a Zephyr test case", params, required };
    assert(param_names(t.params@) =~= seq!["test_case_id"@, "step_id"@, "step"@, "order"@, "data"@, "result"@]);
    assert(required_names(t) =~= seq!["test_case_id"@, "step_id"@]);
    assert forall|j: int| 0 <= j < required_names(t).len() implies param_names(t.params@).contains(#[trigger] required_names(t)[j]) by {
        if j == 0 {
            assert(param_names(t.params@)[0] == required_names(t)[0]);
        } else if j == 1 {
            assert(param_names(t.params@)[1] == required_names(t)[1]);
        }
    }
    assert(tool_view(t) =~~= update_zephyr_test_step_spec());
    t
}

/// The schema of the `delete_zephyr_test_step` tool.
pub open spec fn delete_zephyr_test_step_spec() -> ToolView {
    (
        "delete_zephyr_test_step"@,
        "Delete a test step from a Zephyr test case"@,
        seq![
            (
                ("test_case_id"@, ParamKind::String, "The ID of the test case containing the step"@, Option::<ParamKind>::None, Option::<ParamKind>::None, Seq::<Seq<char>>::empty()),
                Seq::<FieldView>::empty(),
                Seq::<Seq<char>>::empty(),
            ),
            (
                ("step_id"@, ParamKind::String, "The ID of the test step to delete"@, Option::<ParamKind>::None, Option::<ParamKind>::None, Seq::<Seq<char>>::empty()),
                Seq::<FieldView>::empty(),
                Seq::<Seq<char>>::empty(),
            ),
        ],
        seq!["test_case_id"@, "step_id"@],
    )
}

/// The `delete_zephyr_test_step` tool.
pub(crate) fn delete_zephyr_test_step_tool() -> (t: ToolSpec)
    ensures
        tool_view(t) == delete_zephyr_test_step_spec(),
        schema_well_formed(t),
{
    let mut params: Vec<ToolParam> = Vec::new();
    push_param(&mut params, param("test_case_id", ParamKind::String, "The ID of the test case containing the step"));
    push_param(&mut params, param("step_id", ParamKind::String, "The ID of the test step to delete"));
    let mut required: Vec<&'static str> = Vec::new();
    required.push("test_case_id");
    required.push("step_id");
    let t = ToolSpec { name: "delete_zephyr_test_step", description: "Delete a test step from a Zephyr test case", params, required };
    assert(param_names(t.params@) =~= seq!["test_case_id"@, "step_id"@]);
    assert(required_names(t) =~= seq!["test_case_id"@, "step_id"@]);
    assert forall|j: int| 0 <= j < required_names(t).len() implies param_names(t.params@).contains(#[trigger] required_names(t)[j]) by {
        if j == 0 {
            assert(param_names(t.params@)[0] == required_names(t)[0]);
        } else if j == 1 {
            assert(param_names(t.params@)[1] == required_names(t)[1]);
        }
    }
    assert(tool_view(t) =~~= delete_zephyr_test_step_spec());
    t
}

/// The schema of the `get_zephyr_test_cases` tool.
pub open spec fn get_zephyr_test_cases_spec() -> ToolView {
    (
        "get_zephyr_test_cases"@,
        "Search for Zephyr test cases in a project"@,
        seq![
            (
                ("project_key"@, ParamKind::String, "The key of the project to search test cases in"@, Option::<ParamKind>::None, Option::<ParamKind>::None, Seq::<Seq<char>>::empty()),
                Seq::<FieldView>::empty(),
                Seq::<Seq<char>>::empty(),
            ),
            (
                ("start_at"@, ParamKind::Integer, "The index of the first item to return"@, Option::<ParamKind>::None, Option::<ParamKind>::None, Seq::<Seq<char>>::empty()),
                Seq::<FieldView>::empty(),
                Seq::<Seq<char>>::empty(),
            ),
            (
                ("max_results"@, ParamKind::Integer, "The maximum number of items to return"@, Option::<ParamKind>::None, Option::<ParamKind>::None, Seq::<Seq<char>>::empty()),
                Seq::<FieldView>::empty(),
                Seq::<Seq<char>>::empty(),
            ),
        ],
        seq!["project_key"@],
    )
}

/// The `get_zephyr_test_cases` tool.
pub(crate) fn get_zephyr_test_cases_tool() -> (t: ToolSpec)
    ensures
        tool_view(t) == get_zephyr_test_cases_spec(),
        schema_well_formed(t),
{
    let mut params: Vec<ToolParam> = Vec::new();
    push_param(&mut params, param("project_key", ParamKind::String, "The key of the project to search test cases in"));
    push_param(&mut params, param("start_at", ParamKind::Integer, "The index of the first item to return"));
    push_param(&mut params, param("max_results", ParamKind::Integer, "The maximum number of items to return"));
    let mut required: Vec<&'static str> = Vec::new();
    required.push("project_key");
    let t = ToolSpec { name: "get_zephyr_test_cases", description: "Search for Zephyr test cases in a project", params, required };
    assert(param_names(t.params@) =~= seq!["project_key"@, "start_at"@, "max_results"@]);
    assert(required_names(t) =~= seq!["project_key"@]);
    assert forall|j: int| 0 <= j < required_names(t).len() implies param_names(t.params@).contains(#[trigger] required_names(t)[j]) by {
        if j == 0 {
            assert(param_names(t.params@)[0] == required_names(t)[0]);
        }
    }
    assert(tool_view(t) =~~= get_zephyr_test_cases_spec());
    t
}

/// The schema of the `create_zephyr_test_case` tool.
pub open spec fn create_zephyr_test_case_spec() -> ToolView {
    (
        "create_zephyr_test_case"@,
        "Create a new Zephyr test case"@,
        seq![
            (
                ("name"@, ParamKind::String, "The name of the test case"@, Option::<ParamKind>::None, Option::<ParamKind>::None, Seq::<Seq<char>>::empty()),
                Seq::<FieldView>::empty(),
                Seq::<Seq<char>>::empty(),
            ),
            (
                ("project_key"@, ParamKind::String, "The key of the project to create the test case in"@, Option::<ParamKind>::None, Option::<ParamKind>::None, Seq::<Seq<char>>::empty()),
                Seq::<FieldView>::empty(),
                Seq::<Seq<char>>::empty(),
            ),
            (
                ("issue_type"@, ParamKind::String, "The issue type for the test case"@, Option::<ParamKind>::None, Option::<ParamKind>::None, Seq::<Seq<char>>::empty()),
                Seq::<FieldView>::empty(),
                Seq::<Seq<char>>::empty(),
            ),
            (
                ("priority"@, ParamKind::String, "Optional priority for the test case"@, Option::<ParamKind>::None, Option::<ParamKind>::None, Seq::<Seq<char>>::empty()),
                Seq::<FieldView>::empty(),
                Seq::<Seq<char>>::empty(),
            ),
            (
                ("assignee"@, ParamKind::String, "Optional assignee for the test case"@, Option::<ParamKind>::None, Option::<ParamKind>::None, Seq::<Seq<char>>::empty()),
                Seq::<FieldView>::empty(),
                Seq::<Seq<char>>::empty(),
            ),
            (
                ("description"@, ParamKind::String, "Optional description for the test case"@, Option::<ParamKind>::None, Option::<ParamKind>::None, Seq::<Seq<char>>::empty()),
                Seq::<FieldView>::empty(),
                Seq::<Seq<char>>::empty(),
            ),
        ],
        seq!["name"@, "project_key"@, "issue_type"@],
    )
}

/// The `create_zephyr_test_case` tool.
pub(crate) fn create_zephyr_test_case_tool() -> (t: ToolSpec)
    ensures
        tool_view(t) == create_zephyr_test_case_spec(),
        schema_well_formed(t),
{
    let mut params: Vec<ToolParam> = Vec::new();
    push_param(&mut params, param("name", ParamKind::String, "The name of the test case"));
    push_param(&mut params, param("project_key", ParamKind::String, "The key of the project to create the test case in"));
    push_param(&mut params, param("issue_type", ParamKind::String, "The issue type for the test case"));
    push_param(&mut params, param("priority", ParamKind::String, "Optional priority for the test case"));
    push_param(&mut params, param("assignee", ParamKind::String, "Optional assignee for the test case"));
    push_param(&mut params, param("description", ParamKind::String, "Optional description for the test case"));
    let mut required: Vec<&'static str> = Vec::new();
    required.push("name");
    required.push("project_key");
    required.push("issue_type");
    let t = ToolSpec { name: "create_zephyr_test_case", description: "Create a new Zephyr test case", params, required };
    assert(param_names(t.params@) =~= seq!["name"@, "project_key"@, "issue_type"@, "priority"@, "assignee"@, "description"@]);
    assert(required_names(t) =~= seq!["name"@, "project_key"@, "issue_type"@]);
    assert forall|j: int| 0 <= j < required_names(t).len() implies param_names(t.params@).contains(#[trigger] required_names(t)[j]) by {
        if j == 0 {
            assert(param_names(t.params@)[0] == required_names(t)[0]);
        } else if j == 1 {
            assert(param_names(t.params@)[1] == required_names(t)[1]);
        } else if j == 2 {
            assert(param_names(t.params@)[2] == required_names(t)[2]);
        }
    }
    assert(tool_view(t) =~~= create_zephyr_test_case_spec());
    t
}

/// The schema of the `get_zephyr_test_executions` tool.
pub open spec fn get_zephyr_test_executions_spec() -> ToolView {
    (
        "get_zephyr_test_executions"@,
        "Get test executions for a Zephyr test case"@,
        seq![
            (
                ("test_case_id"@, ParamKind::String, "The ID of the test case to get executions for"@, Option::<ParamKind>::None, Option::<ParamKind>::None, Seq::<Seq<char>>::empty()),
                Seq::<FieldView>::empty(),
                Seq::<Seq<char>>::empty(),
            ),
        ],
        seq!["test_case_id"@],
    )
}

/// The `get_zephyr_test_executions` tool.
pub(crate) fn get_zephyr_test_executions_tool() -> (t: ToolSpec)
    ensures
        tool_view(t) == get_zephyr_test_executions_spec(),
        schema_well_formed(t),
{
    let mut params: Vec<ToolParam> = Vec::new();
    push_param(&mut params, param("test_case_id", ParamKind::String, "The ID of the test case to get executions for"));
    let mut required: Vec<&'static str> = Vec::new();
    required.push("test_case_id");
    let t = ToolSpec { name: "get_zephyr_test_executions", description: "Get test executions for a Zephyr test case", params, required };
    assert(param_names(t.params@) =~= seq!["test_case_id"@]);
    assert(required_names(t) =~= seq!["test_case_id"@]);
    assert forall|j: int| 0 <= j < required_names(t).len() implies param_names(t.params@).contains(#[trigger] required_names(t)[j]) by {
        if j == 0 {
            assert(param_names(t.params@)[0] == required_names(t)[0]);
        }
    }
    assert(tool_view(t) =~~= get_zephyr_test_executions_spec());
    t
}

/// The schema of the `create_zephyr_test_execution` tool.
pub open spec fn create_zephyr_test_execution_spec() -> ToolView {
    (
        "create_zephyr_test_execution"@,
        "Create a new test execution in Zephyr"@,
        seq![
            (
                ("test_case_id"@, ParamKind::String, "The ID of the test case to execute"@, Option::<ParamKind>::None, Option::<ParamKind>::None, Seq::<Seq<char>>::empty()),
                Seq::<FieldView>::empty(),
                Seq::<Seq<char>>::empty(),
            ),
            (
                ("project_id"@, ParamKind::String, "The ID of the project"@, Option::<ParamKind>::None, Option::<ParamKind>::None, Seq::<Seq<char>>::empty()),
                Seq::<FieldView>::empty(),
                Seq::<Seq<char>>::empty(),
            ),
            (
                ("status"@, ParamKind::String, "The execution status"@, Option::<ParamKind>::None, Option::<ParamKind>::None, Seq::<Seq<char>>::empty()),
                Seq::<FieldView>::empty(),
                Seq::<Seq<char>>::empty(),
            ),
            (
                ("cycle_id"@, ParamKind::String, "Optional test cycle ID"@, Option::<ParamKind>::None, Option::<ParamKind>::None, Seq::<Seq<char>>::empty()),
                Seq::<FieldView>::empty(),
                Seq::<Seq<char>>::empty(),
            ),
            (
                ("version_id"@, ParamKind::String, "Optional version ID"@, Option::<ParamKind>::None, Option::<ParamKind>::None, Seq::<Seq<char>>::empty()),
                Seq::<FieldView>::empty(),
                Seq::<Seq<char>>::empty(),
            ),
            (
                ("assignee"@, ParamKind::String, "Optional assignee for the execution"@, Option::<ParamKind>::None, Option::<ParamKind>::None, Seq::<Seq<char>>::empty()),
                Seq::<FieldView>::empty(),
                Seq::<Seq<char>>::empty(),
            ),
            (
                ("comment"@, ParamKind::String, "Optional comment for the execution"@, Option::<ParamKind>::None, Option::<ParamKind>::None, Seq::<Seq<char>>::empty()),
                Seq::<FieldView>::empty(),
                Seq::<Seq<char>>::empty(),
            ),
        ],
        seq!["test_case_id"@, "project_id"@, "status"@],
    )
}

/// The `create_zephyr_test_execution` tool.
pub(crate) fn create_zephyr_test_execution_tool() -> (t: ToolSpec)
    ensures
        tool_view(t) == create_zephyr_test_execution_spec(),
        schema_well_formed(t),
{
    let mut params: Vec<ToolParam> = Vec::new();
    push_param(&mut params, param("test_case_id", ParamKind::String, "The ID of the test case to execute"));
    push_param(&mut params, param("project_id", ParamKind::String, "The ID of the project"));
    push_param(&mut params, param("status", ParamKind::String, "The execution status"));
    push_param(&mut params, param("cycle_id", ParamKind::String, "Optional test cycle ID"));
    push_param(&mut params, param("version_id", ParamKind::String, "Optional version ID"));
    push_param(&mut params, param("assignee", ParamKind::String, "Optional assignee for the execution"));
    push_param(&mut params, param("comment", ParamKind::String, "Optional comment for the execution"));
    let mut required: Vec<&'static str> = Vec::new();
    required.push("test_case_id");
    required.push("project_id");
    required.push("status");
    let t = ToolSpec { name: "create_zephyr_test_execution", description: "Create a new test execution in Zephyr", params, required };
    assert(param_names(t.params@) =~= seq!["test_case_id"@, "project_id"@, "status"@, "cycle_id"@, "version_id"@, "assignee"@, "comment"@]);
    assert(required_names(t) =~= seq!["test_case_id"@, "project_id"@, "status"@]);
    assert forall|j: int| 0 <= j < required_names(t).len() implies param_names(t.params@).contains(#[trigger] required_names(t)[j]) by {
        if j == 0 {
            assert(param_names(t.params@)[0] == required_names(t)[0]);
        } else if j == 1 {
            assert(param_names(t.params@)[1] == required_names(t)[1]);
        } else if j == 2 {
            assert(param_names(t.params@)[2] == required_names(t)[2]);
        }
    }
    assert(tool_view(t) =~~= create_zephyr_test_execution_spec());
    t
}

/// The schema of the `get_zephyr_test_cycles` tool.
pub open spec fn get_zephyr_test_cycles_spec() -> ToolView {
    (
        "get_zephyr_test_cycles"@,
        "Get test cycles for a Zephyr project"@,
        seq![
            (
                ("project_key"@, ParamKind::String, "The key of the project to get test cycles for"@, Option::<ParamKind>::None, Option::<ParamKind>::None, Seq::<Seq<char>>::empty()),
                Seq::<FieldView>::empty(),
                Seq::<Seq<char>>::empty(),
            ),
        ],
        seq!["project_key"@],
    )
}

/// The `get_zephyr_test_cycles` tool.
pub(crate) fn get_zephyr_test_cycles_tool() -> (t: ToolSpec)
    ensures
        tool_view(t) == get_zephyr_test_cycles_spec(),
        schema_well_formed(t),
{
    let mut params: Vec<ToolParam> = Vec::new();
    push_param(&mut params, param("project_key", ParamKind::String, "The key of the project to get test cycles for"));
    let mut required: Vec<&'static str> = Vec::new();
    required.push("project_key");
    let t = ToolSpec { name: "get_zephyr_test_cycles", description: "Get test cycles for a Zephyr project", params, required };
    assert(param_names(t.params@) =~= seq!["project_key"@]);
    assert(required_names(t) =~= seq!["project_key"@]);
    assert forall|j: int| 0 <= j < required_names(t).len() implies param_names(t.params@).contains(#[trigger] required_names(t)[j]) by {
        if j == 0 {
            assert(param_names(t.params@)[0] == required_names(t)[0]);
        }
    }
    assert(tool_view(t) =~~= get_zephyr_test_cycles_spec());
    t
}

/// The schema of the `get_zephyr_test_plans` tool.
pub open spec fn get_zephyr_test_plans_spec() -> ToolView {
    (
        "get_zephyr_test_plans"@,
        "Get test plans for a Zephyr project"@,
        seq![
            (
                ("project_key"@, ParamKind::String, "The key of the project to get test plans for"@, Option::<ParamKind>::None, Option::<ParamKind>::None, Seq::<Seq<char>>::empty()),
                Seq::<FieldView>::empty(),
                Seq::<Seq<char>>::empty(),
            ),
        ],
        seq!["project_key"@],
    )
}

/// The `get_zephyr_test_plans` tool.
pub(crate) fn get_zephyr_test_plans_tool() -> (t: ToolSpec)
    ensures
        tool_view(t) == get_zephyr_test_plans_spec(),
        schema_well_formed(t),
{
    let mut params: Vec<ToolParam> = Vec::new();
    push_param(&mut params, param("project_key", ParamKind::String, "The key of the project to get test plans for"));
    let mut required: Vec<&'static str> = Vec::new();
    required.push("project_key");
    let t = ToolSpec { name: "get_zephyr_test_plans", description: "Get test plans for a Zephyr project", params, required };
    assert(param_names(t.params@) =~= seq!["project_key"@]);
    assert(required_names(t) =~= seq!["project_key"@]);
    assert forall|j: int| 0 <= j < required_names(t).len() implies param_names(t.params@).contains(#[trigger] required_names(t)[j]) by {
        if j == 0 {
            assert(param_names(t.params@)[0] == required_names(t)[0]);
        }
    }
    assert(tool_view(t) =~~= get_zephyr_test_plans_spec());
    t
}

/// The schema of the `get_jira_link_types` tool.
pub open spec fn get_jira_link_types_spec() -> ToolView {
    (
        "get_jira_link_types"@,
        "Get all available issue link types in Jira"@,
        Seq::<ParamView>::empty(),
        Seq::<Seq<char>>::empty(),
    )
}

/// The `get_jira_link_types` tool.
pub(crate) fn get_jira_link_types_tool() -> (t: ToolSpec)
    ensures
        tool_view(t) == get_jira_link_types_spec(),
        schema_well_formed(t),
{
    let params: Vec<ToolParam> = Vec::new();
    let required: Vec<&'static str> = Vec::new();
    let t = ToolSpec { name: "get_jira_link_types", description: "Get all available issue link types in Jira", params, required };
    assert(param_names(t.params@) =~= Seq::<Seq<char>>::empty());
    assert(required_names(t) =~= Seq::<Seq<char>>::empty());
    assert(tool_view(t) =~~= get_jira_link_types_spec());
    t
}

/// The schema of the `get_jira_issue_links` tool.
pub open spec fn get_jira_issue_links_spec() -> ToolView {
    (
        "get_jira_issue_links"@,
        "Get all links for a specific Jira issue"@,
        seq![
            (
                ("issue_key"@, ParamKind::String, "The key of the issue to get links for"@, Option::<ParamKind>::None, Option::<ParamKind>::None, Seq::<Seq<char>>::empty()),
                Seq::<FieldView>::empty(),
                Seq::<Seq<char>>::empty(),
            ),
        ],
        seq!["issue_key"@],
    )
}

/// The `get_jira_issue_links` tool.
pub(crate) fn get_jira_issue_links_tool() -> (t: ToolSpec)
    ensures
        tool_view(t) == get_jira_issue_links_spec(),
        schema_well_formed(t),
{
    let mut params: Vec<ToolParam> = Vec::new();
    push_param(&mut params, param("issue_key", ParamKind::String, "The key of the issue to get links for"));
    let mut required: Vec<&'static str> = Vec::new();
    required.push("issue_key");
    let t = ToolSpec { name: "get_jira_issue_links", description: "Get all links for a specific Jira issue", params, required };
    assert(param_names(t.params@) =~= seq!["issue_key"@]);
    assert(required_names(t) =~= seq!["issue_key"@]);
    assert forall|j: int| 0 <= j < required_names(t).len() implies param_names(t.params@).contains(#[trigger] required_names(t)[j]) by {
        if j == 0 {
            assert(param_names(t.params@)[0] == required_names(t)[0]);
        }
    }
    assert(tool_view(t) =~~= get_jira_issue_links_spec());
    t
}

/// The schema of the `create_jira_issue_link` tool.
pub open spec fn create_jira_issue_link_spec() -> ToolView {
    (
        "create_jira_issue_link"@,
        "Create a link between two Jira issues"@,
        seq![
            (
                ("link_type"@, ParamKind::String, "The name of the link type"@, Option::<ParamKind>::None, Option::<ParamKind>::None, Seq::<Seq<char>>::empty()),
                Seq::<FieldView>::empty(),
                Seq::<Seq<char>>::empty(),
            ),
            (
                ("inward_issue"@, ParamKind::String, "The key of the inward issue"@, Option::<ParamKind>::None, Option::<ParamKind>::None, Seq::<Seq<char>>::empty()),
                Seq::<FieldView>::empty(),
                Seq::<Seq<char>>::empty(),
            ),
            (
                ("outward_issue"@, ParamKind::String, "The key of the outward issue"@, Option::<ParamKind>::None, Option::<ParamKind>::None, Seq::<Seq<char>>::empty()),
                Seq::<FieldView>::empty(),
                Seq::<Seq<char>>::empty(),
            ),
            (
                ("comment"@, ParamKind::String, "Optional comment for the link"@, Option::<ParamKind>::None, Option::<ParamKind>::None, Seq::<Seq<char>>::empty()),
                Seq::<FieldView>::empty(),
                Seq::<Seq<char>>::empty(),
            ),
        ],
        seq!["link_type"@, "inward_issue"@, "outward_issue"@],
    )
}

/// The `create_jira_issue_link` tool.
pub(crate) fn create_jira_issue_link_tool() -> (t: ToolSpec)
    ensures
        tool_view(t) == create_jira_issue_link_spec(),
        schema_well_formed(t),
{
    let mut params: Vec<ToolParam> = Vec::new();
    push_param(&mut params, param("link_type", ParamKind::String, "The name of the link type"));
    push_param(&mut params, param("inward_issue", ParamKind::String, "The key of the inward issue"));
    push_param(&mut params, param("outward_issue", ParamKind::String, "The key of the outward issue"));
    push_param(&mut params, param("comment", ParamKind::String, "Optional comment for the link"));
    let mut required: Vec<&'static str> = Vec::new();
    required.push("link_type");
    required.push("inward_issue");
    required.push("outward_issue");
    let t = ToolSpec { name: "create_jira_issue_link", description: "Create a link between two Jira issues", params, required };
    assert(param_names(t.params@) =~= seq!["link_type"@, "inward_issue"@, "outward_issue"@, "comment"@]);
    assert(required_names(t) =~= seq!["link_type"@, "inward_issue"@, "outward_issue"@]);
    assert forall|j: int| 0 <= j < required_names(t).len() implies param_names(t.params@).contains(#[trigger] required_names(t)[j]) by {
        if j == 0 {
            assert(param_names(t.params@)[0] == required_names(t)[0]);
        } else if j == 1 {
            assert(param_names(t.params@)[1] == required_names(t)[1]);
        } else if j == 2 {
            assert(param_names(t.params@)[2] == required_names(t)[2]);
        }
    }
    assert(tool_view(t) =~~= create_jira_issue_link_spec());
    t
}

/// The schema of the `delete_jira_issue_link` tool.
pub open spec fn delete_jira_issue_link_spec() -> ToolView {
    (
        "delete_jira_issue_link"@,
        "Delete a link between Jira issues"@,
        seq![
            (
                ("link_id"@, ParamKind::String, "The ID of the link to delete"@, Option::<ParamKind>::None, Option::<ParamKind>::None, Seq::<Seq<char>>::empty()),
                Seq::<FieldView>::empty(),
                Seq::<Seq<char>>::empty(),
            ),
        ],
        seq!["link_id"@],
    )
}

/// The `delete_jira_issue_link` tool.
pub(crate) fn delete_jira_issue_link_tool() -> (t: ToolSpec)
    ensures
        tool_view(t) == delete_jira_issue_link_spec(),
        schema_well_formed(t),
{
    let mut params: Vec<ToolParam> = Vec::new();
    push_param(&mut params, param("link_id", ParamKind::String, "The ID of the link to delete"));
    let mut required: Vec<&'static str> = Vec::new();
    required.push("link_id");
    let t = ToolSpec { name: "delete_jira_issue_link", description: "Delete a link between Jira issues", params, required };
    assert(param_names(t.params@) =~= seq!["link_id"@]);
    assert(required_names(t) =~= seq!["link_id"@]);
    assert forall|j: int| 0 <= j < required_names(t).len() implies param_names(t.params@).contains(#[trigger] required_names(t)[j]) by {
        if j == 0 {
            assert(param_names(t.params@)[0] == required_names(t)[0]);
        }
    }
    assert(tool_view(t) =~~= delete_jira_issue_link_spec());
    t
}

/// The schema of the `get_jira_issue_attachments` tool.
pub open spec fn get_jira_issue_attachments_spec() -> ToolView {
    (
        "get_jira_issue_attachments"@,
        "Get all attachments for a specific Jira issue"@,
        seq![
            (
                ("issue_key"@, ParamKind::String, "The key of the issue to get attachments for"@, Option::<ParamKind>::None, Option::<ParamKind>::None, Seq::<Seq<char>>::empty()),
                Seq::<FieldView>::empty(),
                Seq::<Seq<char>>::empty(),
            ),
        ],
        seq!["issue_key"@],
    )
}

/// The `get_jira_issue_attachments` tool.
pub(crate) fn get_jira_issue_attachments_tool() -> (t: ToolSpec)
    ensures
        tool_view(t) == get_jira_issue_attachments_spec(),
        schema_well_formed(t),
{
    let mut params: Vec<ToolParam> = Vec::new();
    push_param(&mut params, param("issue_key", ParamKind::String, "The key of the issue to get attachments for"));
    let mut required: Vec<&'static str> = Vec::new();
    required.push("issue_key");
    let t = ToolSpec { name: "get_jira_issue_attachments", description: "Get all attachments for a specific Jira issue", params, required };
    assert(param_names(t.params@) =~= seq!["issue_key"@]);
    assert(required_names(t) =~= seq!["issue_key"@]);
    assert forall|j: int| 0 <= j < required_names(t).len() implies param_names(t.params@).contains(#[trigger] required_names(t)[j]) by {
        if j == 0 {
            assert(param_names(t.params@)[0] == required_names(t)[0]);
        }
    }
    assert(tool_view(t) =~~= get_jira_issue_attachments_spec());
    t
}

/// The schema of the `upload_jira_attachment` tool.
pub open spec fn upload_jira_attachment_spec() -> ToolView {
    (
        "upload_jira_attachment"@,
        "Upload a file attachment to a Jira issue"@,
        seq![
            (
                ("issue_key"@, ParamKind::String, "The key of the issue to attach the file to"@, Option::<ParamKind>::None, Option::<ParamKind>::None, Seq::<Seq<char>>::empty()),
                Seq::<FieldView>::empty(),
                Seq::<Seq<char>>::empty(),
            ),
            (
                ("filename"@, ParamKind::String, "The name of the file"@, Option::<ParamKind>::None, Option::<ParamKind>::None, Seq::<Seq<char>>::empty()),
                Seq::<FieldView>::empty(),
                Seq::<Seq<char>>::empty(),
            ),
            (
                ("content"@, ParamKind::String, "The file content as base64 encoded string"@, Option::<ParamKind>::None, Option::<ParamKind>::None, Seq::<Seq<char>>::empty()),
                Seq::<FieldView>::empty(),
                Seq::<Seq<char>>::empty(),
            ),
        ],
        seq!["issue_key"@, "filename"@, "content"@],
    )
}

/// The `upload_jira_attachment` tool.
pub(crate) fn upload_jira_attachment_tool() -> (t: ToolSpec)
    ensures
        tool_view(t) == upload_jira_attachment_spec(),
        schema_well_formed(t),
{
    let mut params: Vec<ToolParam> = Vec::new();
    push_param(&mut params, param("issue_key", ParamKind::String, "The key of the issue to attach the file to"));
    push_param(&mut params, param("filename", ParamKind::String, "The name of the file"));
    push_param(&mut params, param("content", ParamKind::String, "The file content as base64 encoded string"));
    let mut required: Vec<&'static str> = Vec::new();
    required.push("issue_key");
    required.push("filename");
    required.push("content");
    let t = ToolSpec { name: "upload_jira_attachment", description: "Upload a file attachment to a Jira issue", params, required };
    assert(param_names(t.params@) =~= seq!["issue_key"@, "filename"@, "content"@]);
    assert(required_names(t) =~= seq!["issue_key"@, "filename"@, "content"@]);
    assert forall|j: int| 0 <= j < required_names(t).len() implies param_names(t.params@).contains(#[trigger] required_names(t)[j]) by {
        if j == 0 {
            assert(param_names(t.params@)[0] == required_names(t)[0]);
        } else if j == 1 {
            assert(param_names(t.params@)[1] == required_names(t)[1]);
        } else if j == 2 {
            assert(param_names(t.params@)[2] == required_names(t)[2]);
        }
    }
    assert(tool_view(t) =~~= upload_jira_attachment_spec());
    t
}

/// The schema of the `delete_jira_attachment` tool.
pub open spec fn delete_jira_attachment_spec() -> ToolView {
    (
        "delete_jira_attachment"@,
        "Delete an attachment from a Jira issue"@,
        seq![
            (
                ("attachment_id"@, ParamKind::String, "The ID of the attachment to delete"@, Option::<ParamKind>::None, Option::<ParamKind>::None, Seq::<Seq<char>>::empty()),
                Seq::<FieldView>::empty(),
                Seq::<Seq<char>>::empty(),
            ),
        ],
        seq!["attachment_id"@],
    )
}

/// The `delete_jira_attachment` tool.
pub(crate) fn delete_jira_attachment_tool() -> (t: ToolSpec)
    ensures
        tool_view(t) == delete_jira_attachment_spec(),
        schema_well_formed(t),
{
    let mut params: Vec<ToolParam> = Vec::new();
    push_param(&mut params, param("attachment_id", ParamKind::String, "The ID of the attachment to delete"));
    let mut required: Vec<&'static str> = Vec::new();
    required.push("attachment_id");
    let t = ToolSpec { name: "delete_jira_attachment", description: "Delete an attachment from a Jira issue", params, required };
    assert(param_names(t.params@) =~= seq!["attachment_id"@]);
    assert(required_names(t) =~= seq!["attachment_id"@]);
    assert forall|j: int| 0 <= j < required_names(t).len() implies param_names(t.params@).contains(#[trigger] required_names(t)[j]) by {
        if j == 0 {
            assert(param_names(t.params@)[0] == required_names(t)[0]);
        }
    }
    assert(tool_view(t) =~~= delete_jira_attachment_spec());
    t
}

/// The schema of the `download_jira_attachment` tool.
pub open spec fn download_jira_attachment_spec() -> ToolView {
    (
        "download_jira_attachment"@,
        "Download an attachment from a Jira issue"@,
        seq![
            (
                ("attachment_id"@, ParamKind::String, "The ID of the attachment to download"@, Option::<ParamKind>::None, Option::<ParamKind>::None, Seq::<Seq<char>>::empty()),
                Seq::<FieldView>::empty(),
                Seq::<Seq<char>>::empty(),
            ),
        ],
        seq!["attachment_id"@],
    )
}

/// The `download_jira_attachment` tool.
pub(crate) fn download_jira_attachment_tool() -> (t: ToolSpec)
    ensures
        tool_view(t) == download_jira_attachment_spec(),
        schema_well_formed(t),
{
    let mut params: Vec<ToolParam> = Vec::new();
    push_param(&mut params, param("attachment_id", ParamKind::String, "The ID of the attachment to download"));
    let mut required: Vec<&'static str> = Vec::new();
    required.push("attachment_id");
    let t = ToolSpec { name: "download_jira_attachment", description: "Download an attachment from a Jira issue", params, required };
    assert(param_names(t.params@) =~= seq!["attachment_id"@]);
    assert(required_names(t) =~= seq!["attachment_id"@]);
    assert forall|j: int| 0 <= j < required_names(t).len() implies param_names(t.params@).contains(#[trigger] required_names(t)[j]) by {
        if j == 0 {
            assert(param_names(t.params@)[0] == required_names(t)[0]);
        }
    }
    assert(tool_view(t) =~~= download_jira_attachment_spec());
    t
}

/// The schema of the `get_jira_issue_work_logs` tool.
pub open spec fn get_jira_issue_work_logs_spec() -> ToolView {
    (
        "get_jira_issue_work_logs"@,
        "Get all work log entries for a specific Jira issue"@,
        seq![
            (
                ("issue_key"@, ParamKind::String, "The key of the issue to get work logs for"@, Option::<ParamKind>::None, Option::<ParamKind>::None, Seq::<Seq<char>>::empty()),
                Seq::<FieldView>::empty(),
                Seq::<Seq<char>>::empty(),
            ),
        ],
        seq!["issue_key"@],
    )
}

/// The `get_jira_issue_work_logs` tool.
pub(crate) fn get_jira_issue_work_logs_tool() -> (t: ToolSpec)
    ensures
        tool_view(t) == get_jira_issue_work_logs_spec(),
        schema_well_formed(t),
{
    let mut params: Vec<ToolParam> = Vec::new();
    push_param(&mut params, param("issue_key", ParamKind::String, "The key of the issue to get work logs for"));
    let mut required: Vec<&'static str> = Vec::new();
    required.push("issue_key");
    let t = ToolSpec { name: "get_jira_issue_work_logs", description: "Get all work log entries for a specific Jira issue", params, required };
    assert(param_names(t.params@) =~= seq!["issue_key"@]);
    assert(required_names(t) =~= seq!["issue_key"@]);
    assert forall|j: int| 0 <= j < required_names(t).len() implies param_names(t.params@).contains(#[trigger] required_names(t)[j]) by {
        if j == 0 {
            assert(param_names(t.params@)[0] == required_names(t)[0]);
        }
    }
    assert(tool_view(t) =~~= get_jira_issue_work_logs_spec());
    t
}

/// The schema of the `add_jira_work_log` tool.
pub open spec fn add_jira_work_log_spec() -> ToolView {
    (
        "add_jira_work_log"@,
        "Add a work log entry to a Jira issue"@,
        seq![
            (
                ("issue_key"@, ParamKind::String, "The key of the issue to add work log to"@, Option::<ParamKind>::None, Option::<ParamKind>::None, Seq::<Seq<char>>::empty()),
                Seq::<FieldView>::empty(),
                Seq::<Seq<char>>::empty(),
            ),
            (
                ("time_spent"@, ParamKind::String, "The time spent (e.g., '1h 30m', '2d', '3w')"@, Option::<ParamKind>::None, Option::<ParamKind>::None, Seq::<Seq<char>>::empty()),
                Seq::<FieldView>::empty(),
                Seq::<Seq<char>>::empty(),
            ),
            (
                ("comment"@, ParamKind::String, "Optional comment for the work log"@, Option::<ParamKind>::None, Option::<ParamKind>::None, Seq::<Seq<char>>::empty()),
                Seq::<FieldView>::empty(),
                Seq::<Seq<char>>::empty(),
            ),
            (
                ("started"@, ParamKind::String, "Optional start time in ISO 8601 format"@, Option::<ParamKind>::None, Option::<ParamKind>::None, Seq::<Seq<char>>::empty()),
                Seq::<FieldView>::empty(),
                Seq::<Seq<char>>::empty(),
            ),
        ],
        seq!["issue_key"@, "time_spent"@],
    )
}

/// The `add_jira_work_log` tool.
pub(crate) fn add_jira_work_log_tool() -> (t: ToolSpec)
    ensures
        tool_view(t) == add_jira_work_log_spec(),
        schema_well_formed(t),
{
    let mut params: Vec<ToolParam> = Vec::new();
    push_param(&mut params, param("issue_key", ParamKind::String, "The key of the issue to add work log to"));
    push_param(&mut params, param("time_spent", ParamKind::String, "The time spent (e.g., '1h 30m', '2d', '3w')"));
    push_param(&mut params, param("comment", ParamKind::String, "Optional comment for the work log"));
    push_param(&mut params, param("started", ParamKind::String, "Optional start time in ISO 8601 format"));
    let mut required: Vec<&'static str> = Vec::new();
    required.push("issue_key");
    required.push("time_spent");
    let t = ToolSpec { name: "add_jira_work_log", description: "Add a work log entry to a Jira issue", params, required };
    assert(param_names(t.params@) =~= seq!["issue_key"@, "time_spent"@, "comment"@, "started"@]);
    assert(required_names(t) =~= seq!["issue_key"@, "time_spent"@]);
    assert forall|j: int| 0 <= j < required_names(t).len() implies param_names(t.params@).contains(#[trigger] required_names(t)[j]) by {
        if j == 0 {
            assert(param_names(t.params@)[0] == required_names(t)[0]);
        } else if j == 1 {
            assert(param_names(t.params@)[1] == required_names(t)[1]);
        }
    }
    assert(tool_view(t) =~~= add_jira_work_log_spec());
    t
}

/// The schema of the `update_jira_work_log` tool.
pub open spec fn update_jira_work_log_spec() -> ToolView {
    (
        "update_jira_work_log"@,
        "Update an existing work log entry"@,
        seq![
            (
                ("issue_key"@, ParamKind::String, "The key of the issue containing the work log"@, Option::<ParamKind>::None, Option::<ParamKind>::None, Seq::<Seq<char>>::empty()),
                Seq::<FieldView>::empty(),
                Seq::<Seq<char>>::empty(),
            ),
            (
                ("work_log_id"@, ParamKind::String, "The ID of the work log to update"@, Option::<ParamKind>::None, Option::<ParamKind>::None, Seq::<Seq<char>>::empty()),
                Seq::<FieldView>::empty(),
                Seq::<Seq<char>>::empty(),
            ),
            (
                ("time_spent"@, ParamKind::String, "The updated time spent"@, Option::<ParamKind>::None, Option::<ParamKind>::None, Seq::<Seq<char>>::empty()),
                Seq::<FieldView>::empty(),
                Seq::<Seq<char>>::empty(),
            ),
            (
                ("comment"@, ParamKind::String, "The updated comment"@, Option::<ParamKind>::None, Option::<ParamKind>::None, Seq::<Seq<char>>::empty()),
                Seq::<FieldView>::empty(),
                Seq::<Seq<char>>::empty(),
            ),
            (
                ("started"@, ParamKind::String, "The updated start time"@, Option::<ParamKind>::None, Option::<ParamKind>::None, Seq::<Seq<char>>::empty()),
                Seq::<FieldView>::empty(),
                Seq::<Seq<char>>::empty(),
            ),
        ],
        seq!["issue_key"@, "work_log_id"@],
    )
}

/// The `update_jira_work_log` tool.
pub(crate) fn update_jira_work_log_tool() -> (t: ToolSpec)
    ensures
        tool_view(t) == update_jira_work_log_spec(),
        schema_well_formed(t),
{
    let mut params: Vec<ToolParam> = Vec::new();
    push_param(&mut params, param("issue_key", ParamKind::String, "The key of the issue containing the work log"));
    push_param(&mut params, param("work_log_id", ParamKind::String, "The ID of the work log to update"));
    push_param(&mut params, param("time_spent", ParamKind::String, "The updated time spent"));
    push_param(&mut params, param("comment", ParamKind::String, "The updated comment"));
    push_param(&mut params, param("started", ParamKind::String, "The updated start time"));
    let mut required: Vec<&'static str> = Vec::new();
    required.push("issue_key");
    required.push("work_log_id");
    let t = ToolSpec { name: "update_jira_work_log", description: "Update an existing work log entry", params, required };
    assert(param_names(t.params@) =~= seq!["issue_key"@, "work_log_id"@, "time_spent"@, "comment"@, "started"@]);
    assert(required_names(t) =~= seq!["issue_key"@, "work_log_id"@]);
    assert forall|j: int| 0 <= j < required_names(t).len() implies param_names(t.params@).contains(#[trigger] required_names(t)[j]) by {
        if j == 0 {
            assert(param_names(t.params@)[0] == required_names(t)[0]);
        } else if j == 1 {
            assert(param_names(t.params@)[1] == required_names(t)[1]);
        }
    }
    assert(tool_view(t) =~~= update_jira_work_log_spec());
    t
}

/// The schema of the `delete_jira_work_log` tool.
pub open spec fn delete_jira_work_log_spec() -> ToolView {
    (
        "delete_jira_work_log"@,
        "Delete a work log entry from a Jira issue"@,
        seq![
            (
                ("issue_key"@, ParamKind::String, "The key of the issue containing the work log"@, Option::<ParamKind>::None, Option::<ParamKind>::None, Seq::<Seq<char>>::empty()),
                Seq::<FieldView>::empty(),
                Seq::<Seq<char>>::empty(),
            ),
            (
                ("work_log_id"@, ParamKind::String, "The ID of the work log to delete"@, Option::<ParamKind>::None, Option::<ParamKind>::None, Seq::<Seq<char>>::empty()),
                Seq::<FieldView>::empty(),
                Seq::<Seq<char>>::empty(),
            ),
        ],
        seq!["issue_key"@, "work_log_id"@],
    )
}

/// The `delete_jira_work_log` tool.
pub(crate) fn delete_jira_work_log_tool() -> (t: ToolSpec)
    ensures
        tool_view(t) == delete_jira_work_log_spec(),
        schema_well_formed(t),
{
    let mut params: Vec<ToolParam> = Vec::new();
    push_param(&mut params, param("issue_key", ParamKind::String, "The key of the issue containing the work log"));
    push_param(&mut params, param("work_log_id", ParamKind::String, "The ID of the work log to delete"));
    let mut required: Vec<&'static str> = Vec::new();
    required.push("issue_key");
    required.push("work_log_id");
    let t = ToolSpec { name: "delete_jira_work_log", description: "Delete a work log entry from a Jira issue", params, required };
    assert(param_names(t.params@) =~= seq!["issue_key"@, "work_log_id"@]);
    assert(required_names(t) =~= seq!["issue_key"@, "work_log_id"@]);
    assert forall|j: int| 0 <= j < required_names(t).len() implies param_names(t.params@).contains(#[trigger] required_names(t)[j]) by {
        if j == 0 {
            assert(param_names(t.params@)[0] == required_names(t)[0]);
        } else if j == 1 {
            assert(param_names(t.params@)[1] == required_names(t)[1]);
        }
    }
    assert(tool_view(t) =~~= delete_jira_work_log_spec());
    t
}

/// The schema of the `get_jira_issue_watchers` tool.
pub open spec fn get_jira_issue_watchers_spec() -> ToolView {
    (
        "get_jira_issue_watchers"@,
        "Get all watchers for a specific Jira issue"@,
        seq![
            (
                ("issue_key"@, ParamKind::String, "The key of the issue to get watchers for"@, Option::<ParamKind>::None, Option::<ParamKind>::None, Seq::<Seq<char>>::empty()),
                Seq::<FieldView>::empty(),
                Seq::<Seq<char>>::empty(),
            ),
        ],
        seq!["issue_key"@],
    )
}

/// The `get_jira_issue_watchers` tool.
pub(crate) fn get_jira_issue_watchers_tool() -> (t: ToolSpec)
    ensures
        tool_view(t) == get_jira_issue_watchers_spec(),
        schema_well_formed(t),
{
    let mut params: Vec<ToolParam> = Vec::new();
    push_param(&mut params, param("issue_key", ParamKind::String, "The key of the issue to get watchers for"));
    let mut required: Vec<&'static str> = Vec::new();
    required.push("issue_key");
    let t = ToolSpec { name: "get_jira_issue_watchers", description: "Get all watchers for a specific Jira issue", params, required };
    assert(param_names(t.params@) =~= seq!["issue_key"@]);
    assert(required_names(t) =~= seq!["issue_key"@]);
    assert forall|j: int| 0 <= j < required_names(t).len() implies param_names(t.params@).contains(#[trigger] required_names(t)[j]) by {
        if j == 0 {
            assert(param_names(t.params@)[0] == required_names(t)[0]);
        }
    }
    assert(tool_view(t) =~~= get_jira_issue_watchers_spec());
    t
}

/// The schema of the `add_jira_issue_watcher` tool.
pub open spec fn add_jira_issue_watcher_spec() -> ToolView {
    (
        "add_jira_issue_watcher"@,
        "Add a watcher to a Jira issue"@,
        seq![
            (
                ("issue_key"@, ParamKind::String, "The key of the issue to add watcher to"@, Option::<ParamKind>::None, Option::<ParamKind>::None, Seq::<Seq<char>>::empty()),
                Seq::<FieldView>::empty(),
                Seq::<Seq<char>>::empty(),
            ),
            (
                ("account_id"@, ParamKind::String, "The account ID of the user to add as watcher"@, Option::<ParamKind>::None, Option::<ParamKind>::None, Seq::<Seq<char>>::empty()),
                Seq::<FieldView>::empty(),
                Seq::<Seq<char>>::empty(),
            ),
        ],
        seq!["issue_key"@, "account_id"@],
    )
}

/// The `add_jira_issue_watcher` tool.
pub(crate) fn add_jira_issue_watcher_tool() -> (t: ToolSpec)
    ensures
        tool_view(t) == add_jira_issue_watcher_spec(),
        schema_well_formed(t),
{
    let mut params: Vec<ToolParam> = Vec::new();
    push_param(&mut params, param("issue_key", ParamKind::String, "The key of the issue to add watcher to"));
    push_param(&mut params, param("account_id", ParamKind::String, "The account ID of the user to add as watcher"));
    let mut required: Vec<&'static str> = Vec::new();
    required.push("issue_key");
    required.push("account_id");
    let t = ToolSpec { name: "add_jira_issue_watcher", description: "Add a watcher to a Jira issue", params, required };
    assert(param_names(t.params@) =~= seq!["issue_key"@, "account_id"@]);
    assert(required_names(t) =~= seq!["issue_key"@, "account_id"@]);
    assert forall|j: int| 0 <= j < required_names(t).len() implies param_names(t.params@).contains(#[trigger] required_names(t)[j]) by {
        if j == 0 {
            assert(param_names(t.params@)[0] == required_names(t)[0]);
        } else if j == 1 {
            assert(param_names(t.params@)[1] == required_names(t)[1]);
        }
    }
    assert(tool_view(t) =~~= add_jira_issue_watcher_spec());
    t
}

/// The schema of the `remove_jira_issue_watcher` tool.
pub open spec fn remove_jira_issue_watcher_spec() -> ToolView {
    (
        "remove_jira_issue_watcher"@,
        "Remove a watcher from a Jira issue"@,
        seq![
            (
                ("issue_key"@, ParamKind::String, "The key of the issue to remove watcher from"@, Option::<ParamKind>::None, Option::<ParamKind>::None, Seq::<Seq<char>>::empty()),
                Seq::<FieldView>::empty(),
                Seq::<Seq<char>>::empty(),
            ),
            (
                ("account_id"@, ParamKind::String, "The account ID of the user to remove as watcher"@, Option::<ParamKind>::None, Option::<ParamKind>::None, Seq::<Seq<char>>::empty()),
                Seq::<FieldView>::empty(),
                Seq::<Seq<char>>::empty(),
            ),
        ],
        seq!["issue_key"@, "account_id"@],
    )
}

/// The `remove_jira_issue_watcher` tool.
pub(crate) fn remove_jira_issue_watcher_tool() -> (t: ToolSpec)
    ensures
        tool_view(t) == remove_jira_issue_watcher_spec(),
        schema_well_formed(t),
{
    let mut params: Vec<ToolParam> = Vec::new();
    push_param(&mut params, param("issue_key", ParamKind::String, "The key of the issue to remove watcher from"));
    push_param(&mut params, param("account_id", ParamKind::String, "The account ID of the user to remove as watcher"));
    let mut required: Vec<&'static str> = Vec::new();
    required.push("issue_key");
    required.push("account_id");
    let t = ToolSpec { name: "remove_jira_issue_watcher", description: "Remove a watcher from a Jira issue", params, required };
    assert(param_names(t.params@) =~= seq!["issue_key"@, "account_id"@]);
    assert(required_names(t) =~= seq!["issue_key"@, "account_id"@]);
    assert forall|j: int| 0 <= j < required_names(t).len() implies param_names(t.params@).contains(#[trigger] required_names(t)[j]) by {
        if j == 0 {
            assert(param_names(t.params@)[0] == required_names(t)[0]);
        } else if j == 1 {
            assert(param_names(t.params@)[1] == required_names(t)[1]);
        }
    }
    assert(tool_view(t) =~~= remove_jira_issue_watcher_spec());
    t
}

/// The schema of the `get_jira_labels` tool.
pub open spec fn get_jira_labels_spec() -> ToolView {
    (
        "get_jira_labels"@,
        "Get all available labels in Jira"@,
        Seq::<ParamView>::empty(),
        Seq::<Seq<char>>::empty(),
    )
}

/// The `get_jira_labels` tool.
pub(crate) fn get_jira_labels_tool() -> (t: ToolSpec)
    ensures
        tool_view(t) == get_jira_labels_spec(),
        schema_well_formed(t),
{
    let params: Vec<ToolParam> = Vec::new();
    let required: Vec<&'static str> = Vec::new();
    let t = ToolSpec { name: "get_jira_labels", description: "Get all available labels in Jira", params, required };
    assert(param_names(t.params@) =~= Seq::<Seq<char>>::empty());
    assert(required_names(t) =~= Seq::<Seq<char>>::empty());
    assert(tool_view(t) =~~= get_jira_labels_spec());
    t
}

/// The schema of the `create_jira_label` tool.
pub open spec fn create_jira_label_spec() -> ToolView {
    (
        "create_jira_label"@,
        "Create a new label in Jira"@,
        seq![
            (
                ("name"@, ParamKind::String, "The name of the label to create"@, Option::<ParamKind>::None, Option::<ParamKind>::None, Seq::<Seq<char>>::empty()),
                Seq::<FieldView>::empty(),
                Seq::<Seq<char>>::empty(),
            ),
        ],
        seq!["name"@],
    )
}

/// The `create_jira_label` tool.
pub(crate) fn create_jira_label_tool() -> (t: ToolSpec)
    ensures
        tool_view(t) == create_jira_label_spec(),
        schema_well_formed(t),
{
    let mut params: Vec<ToolParam> = Vec::new();
    push_param(&mut params, param("name", ParamKind::String, "The name of the label to create"));
    let mut required: Vec<&'static str> = Vec::new();
    required.push("name");
    let t = ToolSpec { name: "create_jira_label", description: "Create a new label in Jira", params, required };
    assert(param_names(t.params@) =~= seq!["name"@]);
    assert(required_names(t) =~= seq!["name"@]);
    assert forall|j: int| 0 <= j < required_names(t).len() implies param_names(t.params@).contains(#[trigger] required_names(t)[j]) by {
        if j == 0 {
            assert(param_names(t.params@)[0] == required_names(t)[0]);
        }
    }
    assert(tool_view(t) =~~= create_jira_label_spec());
    t
}

/// The schema of the `update_jira_label` tool.
pub open spec fn update_jira_label_spec() -> ToolView {
    (
        "update_jira_label"@,
        "Update an existing label in Jira"@,
        seq![
            (
                ("old_name"@, ParamKind::String, "The current name of the label"@, Option::<ParamKind>::None, Option::<ParamKind>::None, Seq::<Seq<char>>::empty()),
                Seq::<FieldView>::empty(),
                Seq::<Seq<char>>::empty(),
            ),
            (
                ("new_name"@, ParamKind::String, "The new name for the label"@, Option::<ParamKind>::None, Option::<ParamKind>::None, Seq::<Seq<char>>::empty()),
                Seq::<FieldView>::empty(),
                Seq::<Seq<char>>::empty(),
            ),
        ],
        seq!["old_name"@, "new_name"@],
    )
}

/// The `update_jira_label` tool.
pub(crate) fn update_jira_label_tool() -> (t: ToolSpec)
    ensures
        tool_view(t) == update_jira_label_spec(),
        schema_well_formed(t),
{
    let mut params: Vec<ToolParam> = Vec::new();
    push_param(&mut params, param("old_name", ParamKind::String, "The current name of the label"));
    push_param(&mut params, param("new_name", ParamKind::String, "The new name for the label"));
    let mut required: Vec<&'static str> = Vec::new();
    required.push("old_name");
    required.push("new_name");
    let t = ToolSpec { name: "update_jira_label", description: "Update an existing label in Jira", params, required };
    assert(param_names(t.params@) =~= seq!["old_name"@, "new_name"@]);
    assert(required_names(t) =~= seq!["old_name"@, "new_name"@]);
    assert forall|j: int| 0 <= j < required_names(t).len() implies param_names(t.params@).contains(#[trigger] required_names(t)[j]) by {
        if j == 0 {
            assert(param_names(t.params@)[0] == required_names(t)[0]);
        } else if j == 1 {
            assert(param_names(t.params@)[1] == required_names(t)[1]);
        }
    }
    assert(tool_view(t) =~~= update_jira_label_spec());
    t
}

/// The schema of the `delete_jira_label` tool.
pub open spec fn delete_jira_label_spec() -> ToolView {
    (
        "delete_jira_label"@,
        "Delete a label from Jira"@,
        seq![
            (
                ("name"@, ParamKind::String, "The name of the label to delete"@, Option::<ParamKind>::None, Option::<ParamKind>::None, Seq::<Seq<char>>::empty()),
                Seq::<FieldView>::empty(),
                Seq::<Seq<char>>::empty(),
            ),
        ],
        seq!["name"@],
    )
}

/// The `delete_jira_label` tool.
pub(crate) fn delete_jira_label_tool() -> (t: ToolSpec)
    ensures
        tool_view(t) == delete_jira_label_spec(),
        schema_well_formed(t),
{
    let mut params: Vec<ToolParam> = Vec::new();
    push_param(&mut params, param("name", ParamKind::String, "The name of the label to delete"));
    let mut required: Vec<&'static str> = Vec::new();
    required.push("name");
    let t = ToolSpec { name: "delete_jira_label", description: "Delete a label from Jira", params, required };
    assert(param_names(t.params@) =~= seq!["name"@]);
    assert(required_names(t) =~= seq!["name"@]);
    assert forall|j: int| 0 <= j < required_names(t).len() implies param_names(t.params@).contains(#[trigger] required_names(t)[j]) by {
        if j == 0 {
            assert(param_names(t.params@)[0] == required_names(t)[0]);
        }
    }
    assert(tool_view(t) =~~= delete_jira_label_spec());
    t
}

/// The schema of the `create_jira_component` tool.
pub open spec fn create_jira_component_spec() -> ToolView {
    (
        "create_jira_component"@,
        "Create a new component in a Jira project"@,
        seq![
            (
                ("name"@, ParamKind::String, "The name of the component"@, Option::<ParamKind>::None, Option::<ParamKind>::None, Seq::<Seq<char>>::empty()),
                Seq::<FieldView>::empty(),
                Seq::<Seq<char>>::empty(),
            ),
            (
                ("project"@, ParamKind::String, "The key of the project to create the component in"@, Option::<ParamKind>::None, Option::<ParamKind>::None, Seq::<Seq<char>>::empty()),
                Seq::<FieldView>::empty(),
                Seq::<Seq<char>>::empty(),
            ),
            (
                ("description"@, ParamKind::String, "Optional description for the component"@, Option::<ParamKind>::None, Option::<ParamKind>::None, Seq::<Seq<char>>::empty()),
                Seq::<FieldView>::empty(),
                Seq::<Seq<char>>::empty(),
            ),
            (
                ("assignee_type"@, ParamKind::String, "Optional assignee type for the component"@, Option::<ParamKind>::None, Option::<ParamKind>::None, Seq::<Seq<char>>::empty()),
                Seq::<FieldView>::empty(),
                Seq::<Seq<char>>::empty(),
            ),
            (
                ("lead_account_id"@, ParamKind::String, "Optional lead account ID for the component"@, Option::<ParamKind>::None, Option::<ParamKind>::None, Seq::<Seq<char>>::empty()),
                Seq::<FieldView>::empty(),
                Seq::<Seq<char>>::empty(),
            ),
        ],
        seq!["name"@, "project"@],
    )
}

/// The `create_jira_component` tool.
pub(crate) fn create_jira_component_tool() -> (t: ToolSpec)
    ensures
        tool_view(t) == create_jira_component_spec(),
        schema_well_formed(t),
{
    let mut params: Vec<ToolParam> = Vec::new();
    push_param(&mut params, param("name", ParamKind::String, "The name of the component"));
    push_param(&mut params, param("project", ParamKind::String, "The key of the project to create the component in"));
    push_param(&mut params, param("description", ParamKind::String, "Optional description for the component"));
    push_param(&mut params, param("assignee_type", ParamKind::String, "Optional assignee type for the component"));
    push_param(&mut params, param("lead_account_id", ParamKind::String, "Optional lead account ID for the component"));
    let mut required: Vec<&'static str> = Vec::new();
    required.push("name");
    required.push("project");
    let t = ToolSpec { name: "create_jira_component", description: "Create a new component in a Jira project", params, required };
    assert(param_names(t.params@) =~= seq!["name"@, "project"@, "description"@, "assignee_type"@, "lead_account_id"@]);
    assert(required_names(t) =~= seq!["name"@, "project"@]);
    assert forall|j: int| 0 <= j < required_names(t).len() implies param_names(t.params@).contains(#[trigger] required_names(t)[j]) by {
        if j == 0 {
            assert(param_names(t.params@)[0] == required_names(t)[0]);
        } else if j == 1 {
            assert(param_names(t.params@)[1] == required_names(t)[1]);
        }
    }
    assert(tool_view(t) =~~= create_jira_component_spec());
    t
}

/// The schema of the `update_jira_component` tool.
pub open spec fn update_jira_component_spec() -> ToolView {
    (
        "update_jira_component"@,
        "Update an existing component in Jira"@,
        seq![
            (
                ("component_id"@, ParamKind::String, "The ID of the component to update"@, Option::<ParamKind>::None, Option::<ParamKind>::None, Seq::<Seq<char>>::empty()),
                Seq::<FieldView>::empty(),
                Seq::<Seq<char>>::empty(),
            ),
            (
                ("name"@, ParamKind::String, "The updated name of the component"@, Option::<ParamKind>::None, Option::<ParamKind>::None, Seq::<Seq<char>>::empty()),
                Seq::<FieldView>::empty(),
                Seq::<Seq<char>>::empty(),
            ),
            (
                ("description"@, ParamKind::String, "The updated description"@, Option::<ParamKind>::None, Option::<ParamKind>::None, Seq::<Seq<char>>::empty()),
                Seq::<FieldView>::empty(),
                Seq::<Seq<char>>::empty(),
            ),
            (
                ("assignee_type"@, ParamKind::String, "The updated assignee type"@, Option::<ParamKind>::None, Option::<ParamKind>::None, Seq::<Seq<char>>::empty()),
                Seq::<FieldView>::empty(),
                Seq::<Seq<char>>::empty(),
            ),
            (
                ("lead_account_id"@, ParamKind::String, "The updated lead account ID"@, Option::<ParamKind>::None, Option::<ParamKind>::None, Seq::<Seq<char>>::empty()),
                Seq::<FieldView>::empty(),
                Seq::<Seq<char>>::empty(),
            ),
        ],
        seq!["component_id"@],
    )
}

/// The `update_jira_component` tool.
pub(crate) fn update_jira_component_tool() -> (t: ToolSpec)
    ensures
        tool_view(t) == update_jira_component_spec(),
        schema_well_formed(t),
{
    let mut params: Vec<ToolParam> = Vec::new();
    push_param(&mut params, param("component_id", ParamKind::String, "The ID of the component to update"));
    push_param(&mut params, param("name", ParamKind::String, "The updated name of the component"));
    push_param(&mut params, param("description", ParamKind::String, "The updated description"));
    push_param(&mut params, param("assignee_type", ParamKind::String, "The updated assignee type"));
    push_param(&mut params, param("lead_account_id", ParamKind::String, "The updated lead account ID"));
    let mut required: Vec<&'static str> = Vec::new();
    required.push("component_id");
    let t = ToolSpec { name: "update_jira_component", description: "Update an existing component in Jira", params, required };
    assert(param_names(t.params@) =~= seq!["component_id"@, "name"@, "description"@, "assignee_type"@, "lead_account_id"@]);
    assert(required_names(t) =~= seq!["component_id"@]);
    assert forall|j: int| 0 <= j < required_names(t).len() implies param_names(t.params@).contains(#[trigger] required_names(t)[j]) by {
        if j == 0 {
            assert(param_names(t.params@)[0] == required_names(t)[0]);
        }
    }
    assert(tool_view(t) =~~= update_jira_component_spec());
    t
}

/// The schema of the `delete_jira_component` tool.
pub open spec fn delete_jira_component_spec() -> ToolView {
    (
        "delete_jira_component"@,
        "Delete a component from Jira"@,
        seq![
            (
                ("component_id"@, ParamKind::String, "The ID of the component to delete"@, Option::<ParamKind>::None, Option::<ParamKind>::None, Seq::<Seq<char>>::empty()),
                Seq::<FieldView>::empty(),
                Seq::<Seq<char>>::empty(),
            ),
        ],
        seq!["component_id"@],
    )
}

/// The `delete_jira_component` tool.
pub(crate) fn delete_jira_component_tool() -> (t: ToolSpec)
    ensures
        tool_view(t) == delete_jira_component_spec(),
        schema_well_formed(t),
{
    let mut params: Vec<ToolParam> = Vec::new();
    push_param(&mut params, param("component_id", ParamKind::String, "The ID of the component to delete"));
    let mut required: Vec<&'static str> = Vec::new();
    required.push("component_id");
    let t = ToolSpec { name: "delete_jira_component", description: "Delete a component from Jira", params, required };
    assert(param_names(t.params@) =~= seq!["component_id"@]);
    assert(required_names(t) =~= seq!["component_id"@]);
    assert forall|j: int| 0 <= j < required_names(t).len() implies param_names(t.params@).contains(#[trigger] required_names(t)[j]) by {
        if j == 0 {
            assert(param_names(t.params@)[0] == required_names(t)[0]);
        }
    }
    assert(tool_view(t) =~~= delete_jira_component_spec());
    t
}

/// The schema of the `clone_jira_issue` tool.
pub open spec fn clone_jira_issue_spec() -> ToolView {
    (
        "clone_jira_issue"@,
        "Clone an existing Jira issue with optional copying of attachments, comments, work logs, watchers, links, and field mapping"@,
        seq![
            (
                ("original_issue_key"@, ParamKind::String, "The key of the issue to clone"@, Option::<ParamKind>::None, Option::<ParamKind>::None, Seq::<Seq<char>>::empty()),
                Seq::<FieldView>::empty(),
                Seq::<Seq<char>>::empty(),
            ),
            (
                ("project_key"@, ParamKind::String, "The key of the project to create the cloned issue in"@, Option::<ParamKind>::None, Option::<ParamKind>::None, Seq::<Seq<char>>::empty()),
                Seq::<FieldView>::empty(),
                Seq::<Seq<char>>::empty(),
            ),
            (
                ("issue_type"@, ParamKind::String, "The issue type for the cloned issue"@, Option::<ParamKind>::None, Option::<ParamKind>::None, Seq::<Seq<char>>::empty()),
                Seq::<FieldView>::empty(),
                Seq::<Seq<char>>::empty(),
            ),
            (
                ("summary"@, ParamKind::String, "The summary for the cloned issue"@, Option::<ParamKind>::None, Option::<ParamKind>::None, Seq::<Seq<char>>::empty()),
                Seq::<FieldView>::empty(),
                Seq::<Seq<char>>::empty(),
            ),
            (
                ("description"@, ParamKind::String, "Optional description for the cloned issue"@, Option::<ParamKind>::None, Option::<ParamKind>::None, Seq::<Seq<char>>::empty()),
                Seq::<FieldView>::empty(),
                Seq::<Seq<char>>::empty(),
            ),
            (
                ("copy_attachments"@, ParamKind::Boolean, "Whether to copy attachments from the original issue"@, Option::<ParamKind>::None, Option::<ParamKind>::None, Seq::<Seq<char>>::empty()),
                Seq::<FieldView>::empty(),
                Seq::<Seq<char>>::empty(),
            ),
            (
                ("copy_comments"@, ParamKind::Boolean, "Whether to copy comments from the original issue"@, Option::<ParamKind>::None, Option::<ParamKind>::None, Seq::<Seq<char>>::empty()),
                Seq::<FieldView>::empty(),
                Seq::<Seq<char>>::empty(),
            ),
            (
                ("copy_work_logs"@, ParamKind::Boolean, "Whether to copy work logs from the original issue"@, Option::<ParamKind>::None, Option::<ParamKind>::None, Seq::<Seq<char>>::empty()),
                Seq::<FieldView>::empty(),
                Seq::<Seq<char>>::empty(),
            ),
            (
                ("copy_watchers"@, ParamKind::Boolean, "Whether to copy watchers from the original issue"@, Option::<ParamKind>::None, Option::<ParamKind>::None, Seq::<Seq<char>>::empty()),
                Seq::<FieldView>::empty(),
                Seq::<Seq<char>>::empty(),
            ),
            (
                ("copy_links"@, ParamKind::Boolean, "Whether to copy links from the original issue"@, Option::<ParamKind>::None, Option::<ParamKind>::None, Seq::<Seq<char>>::empty()),
                Seq::<FieldView>::empty(),
                Seq::<Seq<char>>::empty(),
            ),
            (
                ("field_mapping"@, ParamKind::Object, "Field mapping configuration for cloning"@, Option::<ParamKind>::None, Option::<ParamKind>::None, Seq::<Seq<char>>::empty()),
                seq![
                    ("copy_fields"@, ParamKind::Array, "List of field IDs to copy from the original issue (e.g., ['priority', 'labels', 'components'])"@, Option::<ParamKind>::Some(ParamKind::String), Option::<ParamKind>::None, Seq::<Seq<char>>::empty()),
                    ("exclude_fields"@, ParamKind::Array, "List of field IDs to exclude from copying (e.g., ['assignee', 'reporter', 'status'])"@, Option::<ParamKind>::Some(ParamKind::String), Option::<ParamKind>::None, Seq::<Seq<char>>::empty()),
                    ("custom_field_mapping"@, ParamKind::Object, "Map original field IDs to new field IDs for custom field mapping"@, Option::<ParamKind>::None, Option::<ParamKind>::Some(ParamKind::String), Seq::<Seq<char>>::empty()),
                ],
                Seq::<Seq<char>>::empty(),
            ),
        ],
        seq!["original_issue_key"@, "project_key"@, "issue_type"@, "summary"@],
    )
}

/// The `clone_jira_issue` tool.
pub(crate) fn clone_jira_issue_tool() -> (t: ToolSpec)
    ensures
        tool_view(t) == clone_jira_issue_spec(),
        schema_well_formed(t),
{
    let mut params: Vec<ToolParam> = Vec::new();
    push_param(&mut params, param("original_issue_key", ParamKind::String, "The key of the issue to clone"));
    push_param(&mut params, param("project_key", ParamKind::String, "The key of the project to create the cloned issue in"));
    push_param(&mut params, param("issue_type", ParamKind::String, "The issue type for the cloned issue"));
    push_param(&mut params, param("summary", ParamKind::String, "The summary for the cloned issue"));
    push_param(&mut params, param("description", ParamKind::String, "Optional description for the cloned issue"));
    push_param(&mut params, param("copy_attachments", ParamKind::Boolean, "Whether to copy attachments from the original issue"));
    push_param(&mut params, param("copy_comments", ParamKind::Boolean, "Whether to copy comments from the original issue"));
    push_param(&mut params, param("copy_work_logs", ParamKind::Boolean, "Whether to copy work logs from the original issue"));
    push_param(&mut params, param("copy_watchers", ParamKind::Boolean, "Whether to copy watchers from the original issue"));
    push_param(&mut params, param("copy_links", ParamKind::Boolean, "Whether to copy links from the original issue"));
    let choices7: Vec<&'static str> = Vec::new();
    let mut fields7: Vec<ToolParam> = Vec::new();
    push_param(&mut fields7, list_param("copy_fields", ParamKind::String, "List of field IDs to copy from the original issue (e.g., ['priority', 'labels', 'components'])"));
    push_param(&mut fields7, list_param("exclude_fields", ParamKind::String, "List of field IDs to exclude from copying (e.g., ['assignee', 'reporter', 'status'])"));
    let choices8: Vec<&'static str> = Vec::new();
    let fields8: Vec<ToolParam> = Vec::new();
    let required8: Vec<&'static str> = Vec::new();
    let p8 = ToolParam {
        name: "custom_field_mapping",
        kind: ParamKind::Object,
        description: "Map original field IDs to new field IDs for custom field mapping",
        items: None,
        choices: choices8,
        fields: fields8,
        required_fields: required8,
        values: Some(ParamKind::String),
    };
    push_param(&mut fields7, p8);
    let required7: Vec<&'static str> = Vec::new();
    let p7 = ToolParam {
        name: "field_mapping",
        kind: ParamKind::Object,
        description: "Field mapping configuration for cloning",
        items: None,
        choices: choices7,
        fields: fields7,
        required_fields: required7,
        values: None,
    };
    assert(param_names(p7.fields@) =~= seq!["copy_fields"@, "exclude_fields"@, "custom_field_mapping"@]);
    push_param(&mut params, p7);
    let mut required: Vec<&'static str> = Vec::new();
    required.push("original_issue_key");
    required.push("project_key");
    required.push("issue_type");
    required.push("summary");
    let t = ToolSpec { name: "clone_jira_issue", description: "Clone an existing Jira issue with optional copying of attachments, comments, work logs, watchers, links, and field mapping", params, required };
    assert(param_names(t.params@) =~= seq!["original_issue_key"@, "project_key"@, "issue_type"@, "summary"@, "description"@, "copy_attachments"@, "copy_comments"@, "copy_work_logs"@, "copy_watchers"@, "copy_links"@, "field_mapping"@]);
    assert(required_names(t) =~= seq!["original_issue_key"@, "project_key"@, "issue_type"@, "summary"@]);
    assert forall|j: int| 0 <= j < required_names(t).len() implies param_names(t.params@).contains(#[trigger] required_names(t)[j]) by {
        if j == 0 {
            assert(param_names(t.params@)[0] == required_names(t)[0]);
        } else if j == 1 {
            assert(param_names(t.params@)[1] == required_names(t)[1]);
        } else if j == 2 {
            assert(param_names(t.params@)[2] == required_names(t)[2]);
        } else if j == 3 {
            assert(param_names(t.params@)[3] == required_names(t)[3]);
        }
    }
    assert(tool_view(t) =~~= clone_jira_issue_spec());
    t
}

/// The schema of the `get_sprint` tool.
pub open spec fn get_sprint_spec() -> ToolView {
    (
        "get_sprint"@,
        "Get a sprint by its ID"@,
        seq![
            (
                ("sprint_id"@, ParamKind::Integer, "The ID of the sprint"@, Option::<ParamKind>::None, Option::<ParamKind>::None, Seq::<Seq<char>>::empty()),
                Seq::<FieldView>::empty(),
                Seq::<Seq<char>>::empty(),
            ),
        ],
        seq!["sprint_id"@],
    )
}

/// The `get_sprint` tool.
pub(crate) fn get_sprint_tool() -> (t: ToolSpec)
    ensures
        tool_view(t) == get_sprint_spec(),
        schema_well_formed(t),
{
    let mut params: Vec<ToolParam> = Vec::new();
    push_param(&mut params, param("sprint_id", ParamKind::Integer, "The ID of the sprint"));
    let mut required: Vec<&'static str> = Vec::new();
    required.push("sprint_id");
    let t = ToolSpec { name: "get_sprint", description: "Get a sprint by its ID", params, required };
    assert(param_names(t.params@) =~= seq!["sprint_id"@]);
    assert(required_names(t) =~= seq!["sprint_id"@]);
    assert forall|j: int| 0 <= j < required_names(t).len() implies param_names(t.params@).contains(#[trigger] required_names(t)[j]) by {
        if j == 0 {
            assert(param_names(t.params@)[0] == required_names(t)[0]);
        }
    }
    assert(tool_view(t) =~~= get_sprint_spec());
    t
}

/// The schema of the `create_sprint` tool.
pub open spec fn create_sprint_spec() -> ToolView {
    (
        "create_sprint"@,
        "Create a new sprint on a board"@,
        seq![
            (
                ("name"@, ParamKind::String, "The name of the sprint"@, Option::<ParamKind>::None, Option::<ParamKind>::None, Seq::<Seq<char>>::empty()),
                Seq::<FieldView>::empty(),
                Seq::<Seq<char>>::empty(),
            ),
            (
                ("rapid_view_id"@, ParamKind::Integer, "The ID of the board (rapid view) the sprint belongs to"@, Option::<ParamKind>::None, Option::<ParamKind>::None, Seq::<Seq<char>>::empty()),
                Seq::<FieldView>::empty(),
                Seq::<Seq<char>>::empty(),
            ),
            (
                ("start_date"@, ParamKind::String, "Optional start date (ISO 8601)"@, Option::<ParamKind>::None, Option::<ParamKind>::None, Seq::<Seq<char>>::empty()),
                Seq::<FieldView>::empty(),
                Seq::<Seq<char>>::empty(),
            ),
            (
                ("end_date"@, ParamKind::String, "Optional end date (ISO 8601)"@, Option::<ParamKind>::None, Option::<ParamKind>::None, Seq::<Seq<char>>::empty()),
                Seq::<FieldView>::empty(),
                Seq::<Seq<char>>::empty(),
            ),
            (
                ("goal"@, ParamKind::String, "Optional sprint goal"@, Option::<ParamKind>::None, Option::<ParamKind>::None, Seq::<Seq<char>>::empty()),
                Seq::<FieldView>::empty(),
                Seq::<Seq<char>>::empty(),
            ),
        ],
        seq!["name"@, "rapid_view_id"@],
    )
}

/// The `create_sprint` tool.
pub(crate) fn create_sprint_tool() -> (t: ToolSpec)
    ensures
        tool_view(t) == create_sprint_spec(),
        schema_well_formed(t),
{
    let mut params: Vec<ToolParam> = Vec::new();
    push_param(&mut params, param("name", ParamKind::String, "The name of the sprint"));
    push_param(&mut params, param("rapid_view_id", ParamKind::Integer, "The ID of the board (rapid view) the sprint belongs to"));
    push_param(&mut params, param("start_date", ParamKind::String, "Optional start date (ISO 8601)"));
    push_param(&mut params, param("end_date", ParamKind::String, "Optional end date (ISO 8601)"));
    push_param(&mut params, param("goal", ParamKind::String, "Optional sprint goal"));
    let mut required: Vec<&'static str> = Vec::new();
    required.push("name");
    required.push("rapid_view_id");
    let t = ToolSpec { name: "create_sprint", description: "Create a new sprint on a board", params, required };
    assert(param_names(t.params@) =~= seq!["name"@, "rapid_view_id"@, "start_date"@, "end_date"@, "goal"@]);
    assert(required_names(t) =~= seq!["name"@, "rapid_view_id"@]);
    assert forall|j: int| 0 <= j < required_names(t).len() implies param_names(t.params@).contains(#[trigger] required_names(t)[j]) by {
        if j == 0 {
            assert(param_names(t.params@)[0] == required_names(t)[0]);
        } else if j == 1 {
            assert(param_names(t.params@)[1] == required_names(t)[1]);
        }
    }
    assert(tool_view(t) =~~= create_sprint_spec());
    t
}

/// The schema of the `add_issues_to_sprint` tool.
pub open spec fn add_issues_to_sprint_spec() -> ToolView {
    (
        "add_issues_to_sprint"@,
        "Add issues to a sprint"@,
        seq![
            (
                ("sprint_id"@, ParamKind::Integer, "The ID of the sprint"@, Option::<ParamKind>::None, Option::<ParamKind>::None, Seq::<Seq<char>>::empty()),
                Seq::<FieldView>::empty(),
                Seq::<Seq<char>>::empty(),
            ),
            (
                ("issues"@, ParamKind::Array, "The keys of the issues to add"@, Option::<ParamKind>::Some(ParamKind::String), Option::<ParamKind>::None, Seq::<Seq<char>>::empty()),
                Seq::<FieldView>::empty(),
                Seq::<Seq<char>>::empty(),
            ),
        ],
        seq!["sprint_id"@, "issues"@],
    )
}

/// The `add_issues_to_sprint` tool.
pub(crate) fn add_issues_to_sprint_tool() -> (t: ToolSpec)
    ensures
        tool_view(t) == add_issues_to_sprint_spec(),
        schema_well_formed(t),
{
    let mut params: Vec<ToolParam> = Vec::new();
    push_param(&mut params, param("sprint_id", ParamKind::Integer, "The ID of the sprint"));
    push_param(&mut params, list_param("issues", ParamKind::String, "The keys of the issues to add"));
    let mut required: Vec<&'static str> = Vec::new();
    required.push("sprint_id");
    required.push("issues");
    let t = ToolSpec { name: "add_issues_to_sprint", description: "Add issues to a sprint", params, required };
    assert(param_names(t.params@) =~= seq!["sprint_id"@, "issues"@]);
    assert(required_names(t) =~= seq!["sprint_id"@, "issues"@]);
    assert forall|j: int| 0 <= j < required_names(t).len() implies param_names(t.params@).contains(#[trigger] required_names(t)[j]) by {
        if j == 0 {
            assert(param_names(t.params@)[0] == required_names(t)[0]);
        } else if j == 1 {
            assert(param_names(t.params@)[1] == required_names(t)[1]);
        }
    }
    assert(tool_view(t) =~~= add_issues_to_sprint_spec());
    t
}

/// The schema of the `get_sprint_issues` tool.
pub open spec fn get_sprint_issues_spec() -> ToolView {
    (
        "get_sprint_issues"@,
        "Get the issues in a sprint"@,
        seq![
            (
                ("sprint_id"@, ParamKind::Integer, "The ID of the sprint"@, Option::<ParamKind>::None, Option::<ParamKind>::None, Seq::<Seq<char>>::empty()),
                Seq::<FieldView>::empty(),
                Seq::<Seq<char>>::empty(),
            ),
            (
                ("start_at"@, ParamKind::Integer, "Index of the first issue to return (default: 0)"@, Option::<ParamKind>::None, Option::<ParamKind>::None, Seq::<Seq<char>>::empty()),
                Seq::<FieldView>::empty(),
                Seq::<Seq<char>>::empty(),
            ),
            (
                ("max_results"@, ParamKind::Integer, "Maximum number of issues to return"@, Option::<ParamKind>::None, Option::<ParamKind>::None, Seq::<Seq<char>>::empty()),
                Seq::<FieldView>::empty(),
                Seq::<Seq<char>>::empty(),
            ),
        ],
        seq!["sprint_id"@],
    )
}

/// The `get_sprint_issues` tool.
pub(crate) fn get_sprint_issues_tool() -> (t: ToolSpec)
    ensures
        tool_view(t) == get_sprint_issues_spec(),
        schema_well_formed(t),
{
    let mut params: Vec<ToolParam> = Vec::new();
    push_param(&mut params, param("sprint_id", ParamKind::Integer, "The ID of the sprint"));
    push_param(&mut params, param("start_at", ParamKind::Integer, "Index of the first issue to return (default: 0)"));
    push_param(&mut params, param("max_results", ParamKind::Integer, "Maximum number of issues to return"));
    let mut required: Vec<&'static str> = Vec::new();
    required.push("sprint_id");
    let t = ToolSpec { name: "get_sprint_issues", description: "Get the issues in a sprint", params, required };
    assert(param_names(t.params@) =~= seq!["sprint_id"@, "start_at"@, "max_results"@]);
    assert(required_names(t) =~= seq!["sprint_id"@]);
    assert forall|j: int| 0 <= j < required_names(t).len() implies param_names(t.params@).contains(#[trigger] required_names(t)[j]) by {
        if j == 0 {
            assert(param_names(t.params@)[0] == required_names(t)[0]);
        }
    }
    assert(tool_view(t) =~~= get_sprint_issues_spec());
    t
}

/// The schema of the `start_sprint` tool.
pub open spec fn start_sprint_spec() -> ToolView {
    (
        "start_sprint"@,
        "Start a sprint (set its state to active)"@,
        seq![
            (
                ("sprint_id"@, ParamKind::Integer, "The ID of the sprint"@, Option::<ParamKind>::None, Option::<ParamKind>::None, Seq::<Seq<char>>::empty()),
                Seq::<FieldView>::empty(),
                Seq::<Seq<char>>::empty(),
            ),
        ],
        seq!["sprint_id"@],
    )
}

/// The `start_sprint` tool.
pub(crate) fn start_sprint_tool() -> (t: ToolSpec)
    ensures
        tool_view(t) == start_sprint_spec(),
        schema_well_formed(t),
{
    let mut params: Vec<ToolParam> = Vec::new();
    push_param(&mut params, param("sprint_id", ParamKind::Integer, "The ID of the sprint"));
    let mut required: Vec<&'static str> = Vec::new();
    required.push("sprint_id");
    let t = ToolSpec { name: "start_sprint", description: "Start a sprint (set its state to active)", params, required };
    assert(param_names(t.params@) =~= seq!["sprint_id"@]);
    assert(required_names(t) =~= seq!["sprint_id"@]);
    assert forall|j: int| 0 <= j < required_names(t).len() implies param_names(t.params@).contains(#[trigger] required_names(t)[j]) by {
        if j == 0 {
            assert(param_names(t.params@)[0] == required_names(t)[0]);
        }
    }
    assert(tool_view(t) =~~= start_sprint_spec());
    t
}

/// The schema of the `close_sprint` tool.
pub open spec fn close_sprint_spec() -> ToolView {
    (
        "close_sprint"@,
        "Close a sprint (set its state to closed)"@,
        seq![
            (
                ("sprint_id"@, ParamKind::Integer, "The ID of the sprint"@, Option::<ParamKind>::None, Option::<ParamKind>::None, Seq::<Seq<char>>::empty()),
                Seq::<FieldView>::empty(),
                Seq::<Seq<char>>::empty(),
            ),
        ],
        seq!["sprint_id"@],
    )
}

/// The `close_sprint` tool.
pub(crate) fn close_sprint_tool() -> (t: ToolSpec)
    ensures
        tool_view(t) == close_sprint_spec(),
        schema_well_formed(t),
{
    let mut params: Vec<ToolParam> = Vec::new();
    push_param(&mut params, param("sprint_id", ParamKind::Integer, "The ID of the sprint"));
    let mut required: Vec<&'static str> = Vec::new();
    required.push("sprint_id");
    let t = ToolSpec { name: "close_sprint", description: "Close a sprint (set its state to closed)", params, required };
    assert(param_names(t.params@) =~= seq!["sprint_id"@]);
    assert(required_names(t) =~= seq!["sprint_id"@]);
    assert forall|j: int| 0 <= j < required_names(t).len() implies param_names(t.params@).contains(#[trigger] required_names(t)[j]) by {
        if j == 0 {
            assert(param_names(t.params@)[0] == required_names(t)[0]);
        }
    }
    assert(tool_view(t) =~~= close_sprint_spec());
    t
}

/// The schema of the `get_board_sprints` tool.
pub open spec fn get_board_sprints_spec() -> ToolView {
    (
        "get_board_sprints"@,
        "Get the sprints of a board"@,
        seq![
            (
                ("rapid_view_id"@, ParamKind::Integer, "The ID of the board (rapid view)"@, Option::<ParamKind>::None, Option::<ParamKind>::None, Seq::<Seq<char>>::empty()),
                Seq::<FieldView>::empty(),
                Seq::<Seq<char>>::empty(),
            ),
        ],
        seq!["rapid_view_id"@],
    )
}

/// The `get_board_sprints` tool.
pub(crate) fn get_board_sprints_tool() -> (t: ToolSpec)
    ensures
        tool_view(t) == get_board_sprints_spec(),
        schema_well_formed(t),
{
    let mut params: Vec<ToolParam> = Vec::new();
    push_param(&mut params, param("rapid_view_id", ParamKind::Integer, "The ID of the board (rapid view)"));
    let mut required: Vec<&'static str> = Vec::new();
    required.push("rapid_view_id");
    let t = ToolSpec { name: "get_board_sprints", description: "Get the sprints of a board", params, required };
    assert(param_names(t.params@) =~= seq!["rapid_view_id"@]);
    assert(required_names(t) =~= seq!["rapid_view_id"@]);
    assert forall|j: int| 0 <= j < required_names(t).len() implies param_names(t.params@).contains(#[trigger] required_names(t)[j]) by {
        if j == 0 {
            assert(param_names(t.params@)[0] == required_names(t)[0]);
        }
    }
    assert(tool_view(t) =~~= get_board_sprints_spec());
    t
}

} // verus!
