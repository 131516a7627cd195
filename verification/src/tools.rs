//! The catalogue of MCP tools: the tools the server lists, each with the
//! schema of its arguments; the tools it answers calls for; and the lookup
//! of a called tool.
use crate::catalogue;
use crate::error::JiraError;
use crate::text::{append_str, str_equal};
use vstd::prelude::*;

verus! {

/// The texts of a list of string slices.
pub open spec fn str_views(v: Seq<&str>) -> Seq<Seq<char>> {
    Seq::new(v.len(), |i: int| v[i]@)
}

/// The kind of value an argument takes.
#[derive(Clone, Copy, Debug, PartialEq, Eq, Structural)]
pub enum ParamKind {
    String,
    Integer,
    Boolean,
    Array,
    Object,
}

/// One argument of a tool, as its schema describes it: its name, kind and
/// description; for a list, the kind of its items; for a text, the values
/// it may take (none listed: any); for an object, or a list of objects, the
/// fields of the object and which of them are required; for an object used
/// as a table, the kind of its values.
pub struct ToolParam {
    pub name: &'static str,
    pub kind: ParamKind,
    pub description: &'static str,
    pub items: Option<ParamKind>,
    pub choices: Vec<&'static str>,
    pub fields: Vec<ToolParam>,
    pub required_fields: Vec<&'static str>,
    pub values: Option<ParamKind>,
}

/// A tool as the server lists it: name, description, arguments and the
/// names of the required arguments.
pub struct ToolSpec {
    pub name: &'static str,
    pub description: &'static str,
    pub params: Vec<ToolParam>,
    pub required: Vec<&'static str>,
}

/// What a listed argument says of itself: its name, kind, description,
/// the kind of its items (a list) or of its values (an object used as a
/// table), and the values it may take.
pub type FieldView = (Seq<char>, ParamKind, Seq<char>, Option<ParamKind>, Option<ParamKind>, Seq<Seq<char>>);

/// What an argument's schema says: the argument itself, its fields (of an
/// object, or of the objects in a list) and which fields are required.
pub type ParamView = (FieldView, Seq<FieldView>, Seq<Seq<char>>);

/// What a tool's listing says: its name, description, arguments and
/// required arguments.
pub type ToolView = (Seq<char>, Seq<char>, Seq<ParamView>, Seq<Seq<char>>);

/// An argument as it describes itself.
pub open spec fn field_view(p: ToolParam) -> FieldView {
    (p.name@, p.kind, p.description@, p.items, p.values, str_views(p.choices@))
}

/// An argument's whole schema.
pub open spec fn param_view(p: ToolParam) -> ParamView {
    (field_view(p), Seq::new(p.fields@.len(), |i: int| field_view(p.fields@[i])), str_views(p.required_fields@))
}

/// A tool's whole listing.
pub open spec fn tool_view(t: ToolSpec) -> ToolView {
    (t.name@, t.description@, Seq::new(t.params@.len(), |i: int| param_view(t.params@[i])), required_names(t))
}

/// The listings of a list of tools.
pub open spec fn tool_specs(ts: Seq<ToolSpec>) -> Seq<ToolView> {
    Seq::new(ts.len(), |i: int| tool_view(ts[i]))
}

/// The names in a list of tool listings.
pub open spec fn spec_names(s: Seq<ToolView>) -> Seq<Seq<char>> {
    Seq::new(s.len(), |i: int| s[i].0)
}

/// The names of a list of arguments.
pub open spec fn param_names(ps: Seq<ToolParam>) -> Seq<Seq<char>> {
    Seq::new(ps.len(), |i: int| ps[i].name@)
}

/// The names of a tool's required arguments.
pub open spec fn required_names(t: ToolSpec) -> Seq<Seq<char>> {
    str_views(t.required@)
}

/// The names of a list of tools.
pub open spec fn tool_names(ts: Seq<ToolSpec>) -> Seq<Seq<char>> {
    Seq::new(ts.len(), |i: int| ts[i].name@)
}

/// Every required name is the name of one of the arguments.
pub open spec fn names_given(required: Seq<Seq<char>>, params: Seq<ToolParam>) -> bool {
    forall|j: int| 0 <= j < required.len() ==> param_names(params).contains(#[trigger] required[j])
}

/// An argument's schema hangs together: its required fields are among its
/// fields, its fields have no fields of their own, and items, values,
/// choices and fields go with the kind that has them.
pub open spec fn param_well_formed(p: ToolParam) -> bool {
    &&& names_given(str_views(p.required_fields@), p.fields@)
    &&& forall|k: int|
        0 <= k < p.fields@.len() ==> (#[trigger] p.fields@[k]).fields@.len() == 0
            && p.fields@[k].required_fields@.len() == 0
    &&& p.items is Some ==> p.kind == ParamKind::Array
    &&& p.values is Some ==> p.kind == ParamKind::Object
    &&& p.choices@.len() > 0 ==> p.kind == ParamKind::String
    &&& p.fields@.len() > 0 ==> (p.kind == ParamKind::Object || p.items == Some(ParamKind::Object))
}

/// Every argument of a list hangs together.
pub open spec fn params_well_formed(ps: Seq<ToolParam>) -> bool {
    forall|k: int| 0 <= k < ps.len() ==> param_well_formed(#[trigger] ps[k])
}

/// A tool's schema hangs together: every required argument is one of its
/// arguments, and every argument's schema hangs together.
pub open spec fn schema_well_formed(t: ToolSpec) -> bool {
    &&& names_given(required_names(t), t.params@)
    &&& params_well_formed(t.params@)
}

/// Every tool of a list has a schema that hangs together.
pub open spec fn all_well_formed(ts: Seq<ToolSpec>) -> bool {
    forall|i: int| 0 <= i < ts.len() ==> schema_well_formed(#[trigger] ts[i])
}

/// A plain argument: a name, a kind and a description.
pub(crate) fn param(name: &'static str, kind: ParamKind, description: &'static str) -> (p: ToolParam)
    ensures
        p.name == name,
        p.kind == kind,
        p.description == description,
        p.items is None,
        p.choices@.len() == 0,
        p.fields@.len() == 0,
        p.required_fields@.len() == 0,
        p.values is None,
        param_well_formed(p),
{
    ToolParam {
        name,
        kind,
        description,
        items: None,
        choices: Vec::new(),
        fields: Vec::new(),
        required_fields: Vec::new(),
        values: None,
    }
}

/// A list argument whose items are of the kind `items`.
pub(crate) fn list_param(name: &'static str, items: ParamKind, description: &'static str) -> (p: ToolParam)
    ensures
        p.name == name,
        p.kind == ParamKind::Array,
        p.description == description,
        p.items == Some(items),
        p.choices@.len() == 0,
        p.fields@.len() == 0,
        p.required_fields@.len() == 0,
        p.values is None,
        param_well_formed(p),
{
    ToolParam {
        name,
        kind: ParamKind::Array,
        description,
        items: Some(items),
        choices: Vec::new(),
        fields: Vec::new(),
        required_fields: Vec::new(),
        values: None,
    }
}

/// Adds an argument at the end of a list.
pub(crate) fn push_param(ps: &mut Vec<ToolParam>, p: ToolParam)
    requires
        params_well_formed(old(ps)@),
        param_well_formed(p),
    ensures
        final(ps)@ == old(ps)@.push(p),
        params_well_formed(final(ps)@),
{
    ps.push(p);
}

/// Adds a tool at the end of a list.
fn push_tool(ts: &mut Vec<ToolSpec>, t: ToolSpec)
    requires
        all_well_formed(old(ts)@),
        schema_well_formed(t),
    ensures
        final(ts)@ == old(ts)@.push(t),
        all_well_formed(final(ts)@),
{
    ts.push(t);
}

proof fn lemma_tools_concat(a: Seq<ToolSpec>, b: Seq<ToolSpec>)
    ensures
        tool_specs(a + b) == tool_specs(a) + tool_specs(b),
        all_well_formed(a) && all_well_formed(b) ==> all_well_formed(a + b),
{
    assert(tool_specs(a + b) =~= tool_specs(a) + tool_specs(b));
    if all_well_formed(a) && all_well_formed(b) {
        assert forall|i: int| 0 <= i < (a + b).len() implies schema_well_formed(#[trigger] (a + b)[i]) by {
            if i < a.len() {
                assert((a + b)[i] == a[i]);
            } else {
                assert((a + b)[i] == b[i - a.len()]);
            }
        }
    }
}

/// The schemas of the auth and search tools, in the order they are listed.
pub open spec fn auth_and_search_specs() -> Seq<ToolView> {
    seq![catalogue::test_jira_auth_spec(), catalogue::search_jira_issues_spec()]
}

/// The auth and search tools, in the order they are listed.
pub fn auth_and_search_tools() -> (r: Vec<ToolSpec>)
    ensures
        r@.len() == 2,
        tool_names(r@) == seq!["test_jira_auth"@, "search_jira_issues"@],
        tool_specs(r@) == auth_and_search_specs(),
        all_well_formed(r@),
{
    let mut r: Vec<ToolSpec> = Vec::new();
    push_tool(&mut r, catalogue::test_jira_auth_tool());
    push_tool(&mut r, catalogue::search_jira_issues_tool());
    assert(tool_specs(r@) =~= auth_and_search_specs());
    assert(tool_names(r@) =~= seq!["test_jira_auth"@, "search_jira_issues"@]);
    r
}

/// The schemas of the issue crud tools, in the order they are listed.
pub open spec fn issue_crud_specs() -> Seq<ToolView> {
    seq![catalogue::create_jira_issue_spec(), catalogue::update_jira_issue_spec(), catalogue::get_jira_issue_spec()]
}

/// The issue crud tools, in the order they are listed.
pub fn issue_crud_tools() -> (r: Vec<ToolSpec>)
    ensures
        r@.len() == 3,
        tool_names(r@) == seq!["create_jira_issue"@, "update_jira_issue"@, "get_jira_issue"@],
        tool_specs(r@) == issue_crud_specs(),
        all_well_formed(r@),
{
    let mut r: Vec<ToolSpec> = Vec::new();
    push_tool(&mut r, catalogue::create_jira_issue_tool());
    push_tool(&mut r, catalogue::update_jira_issue_tool());
    push_tool(&mut r, catalogue::get_jira_issue_tool());
    assert(tool_specs(r@) =~= issue_crud_specs());
    assert(tool_names(r@) =~= seq!["create_jira_issue"@, "update_jira_issue"@, "get_jira_issue"@]);
    r
}

/// The schemas of the comment and transition tools, in the order they are listed.
pub open spec fn comment_and_transition_specs() -> Seq<ToolView> {
    seq![catalogue::get_jira_comments_spec(), catalogue::add_jira_comment_spec(), catalogue::get_jira_transitions_spec(), catalogue::transition_jira_issue_spec()]
}

/// The comment and transition tools, in the order they are listed.
pub fn comment_and_transition_tools() -> (r: Vec<ToolSpec>)
    ensures
        r@.len() == 4,
        tool_names(r@) == seq!["get_jira_comments"@, "add_jira_comment"@, "get_jira_transitions"@, "transition_jira_issue"@],
        tool_specs(r@) == comment_and_transition_specs(),
        all_well_formed(r@),
{
    let mut r: Vec<ToolSpec> = Vec::new();
    push_tool(&mut r, catalogue::get_jira_comments_tool());
    push_tool(&mut r, catalogue::add_jira_comment_tool());
    push_tool(&mut r, catalogue::get_jira_transitions_tool());
    push_tool(&mut r, catalogue::transition_jira_issue_tool());
    assert(tool_specs(r@) =~= comment_and_transition_specs());
    assert(tool_names(r@) =~= seq!["get_jira_comments"@, "add_jira_comment"@, "get_jira_transitions"@, "transition_jira_issue"@]);
    r
}

/// The schemas of the project tools, in the order they are listed.
pub open spec fn project_specs() -> Seq<ToolView> {
    seq![catalogue::get_project_config_spec(), catalogue::get_project_issue_types_spec(), catalogue::get_issue_type_metadata_spec(), catalogue::get_project_components_spec(), catalogue::get_priorities_and_statuses_spec(), catalogue::get_custom_fields_spec(), catalogue::get_project_metadata_spec()]
}

/// The project tools, in the order they are listed.
pub fn project_tool_definitions() -> (r: Vec<ToolSpec>)
    ensures
        r@.len() == 7,
        tool_names(r@) == seq!["get_project_config"@, "get_project_issue_types"@, "get_issue_type_metadata"@, "get_project_components"@, "get_priorities_and_statuses"@, "get_custom_fields"@, "get_project_metadata"@],
        tool_specs(r@) == project_specs(),
        all_well_formed(r@),
{
    let mut r: Vec<ToolSpec> = Vec::new();
    push_tool(&mut r, catalogue::get_project_config_tool());
    push_tool(&mut r, catalogue::get_project_issue_types_tool());
    push_tool(&mut r, catalogue::get_issue_type_metadata_tool());
    push_tool(&mut r, catalogue::get_project_components_tool());
    push_tool(&mut r, catalogue::get_priorities_and_statuses_tool());
    push_tool(&mut r, catalogue::get_custom_fields_tool());
    push_tool(&mut r, catalogue::get_project_metadata_tool());
    assert(tool_specs(r@) =~= project_specs());
    assert(tool_names(r@) =~= seq!["get_project_config"@, "get_project_issue_types"@, "get_issue_type_metadata"@, "get_project_components"@, "get_priorities_and_statuses"@, "get_custom_fields"@, "get_project_metadata"@]);
    r
}

/// The schemas of the simple bulk tools, in the order they are listed.
pub open spec fn simple_bulk_specs() -> Seq<ToolView> {
    seq![catalogue::bulk_update_issues_spec(), catalogue::bulk_transition_issues_spec(), catalogue::bulk_add_comments_spec()]
}

/// The simple bulk tools, in the order they are listed.
pub fn simple_bulk_tools() -> (r: Vec<ToolSpec>)
    ensures
        r@.len() == 3,
        tool_names(r@) == seq!["bulk_update_issues"@, "bulk_transition_issues"@, "bulk_add_comments"@],
        tool_specs(r@) == simple_bulk_specs(),
        all_well_formed(r@),
{
    let mut r: Vec<ToolSpec> = Vec::new();
    push_tool(&mut r, catalogue::bulk_update_issues_tool());
    push_tool(&mut r, catalogue::bulk_transition_issues_tool());
    push_tool(&mut r, catalogue::bulk_add_comments_tool());
    assert(tool_specs(r@) =~= simple_bulk_specs());
    assert(tool_names(r@) =~= seq!["bulk_update_issues"@, "bulk_transition_issues"@, "bulk_add_comments"@]);
    r
}

/// The schemas of the mixed bulk tools, in the order they are listed.
pub open spec fn mixed_bulk_specs() -> Seq<ToolView> {
    seq![catalogue::mixed_bulk_operations_spec()]
}

/// The mixed bulk tools, in the order they are listed.
pub fn mixed_bulk_tools() -> (r: Vec<ToolSpec>)
    ensures
        r@.len() == 1,
        tool_names(r@) == seq!["mixed_bulk_operations"@],
        tool_specs(r@) == mixed_bulk_specs(),
        all_well_formed(r@),
{
    let mut r: Vec<ToolSpec> = Vec::new();
    push_tool(&mut r, catalogue::mixed_bulk_operations_tool());
    assert(tool_specs(r@) =~= mixed_bulk_specs());
    assert(tool_names(r@) =~= seq!["mixed_bulk_operations"@]);
    r
}

/// The schemas of the zephyr test step tools, in the order they are listed.
pub open spec fn zephyr_test_step_specs() -> Seq<ToolView> {
    seq![catalogue::get_zephyr_test_steps_spec(), catalogue::create_zephyr_test_step_spec(), catalogue::update_zephyr_test_step_spec(), catalogue::delete_zephyr_test_step_spec()]
}

/// The zephyr test step tools, in the order they are listed.
pub fn zephyr_test_step_tools() -> (r: Vec<ToolSpec>)
    ensures
        r@.len() == 4,
        tool_names(r@) == seq!["get_zephyr_test_steps"@, "create_zephyr_test_step"@, "update_zephyr_test_step"@, "delete_zephyr_test_step"@],
        tool_specs(r@) == zephyr_test_step_specs(),
        all_well_formed(r@),
{
    let mut r: Vec<ToolSpec> = Vec::new();
    push_tool(&mut r, catalogue::get_zephyr_test_steps_tool());
    push_tool(&mut r, catalogue::create_zephyr_test_step_tool());
    push_tool(&mut r, catalogue::update_zephyr_test_step_tool());
    push_tool(&mut r, catalogue::delete_zephyr_test_step_tool());
    assert(tool_specs(r@) =~= zephyr_test_step_specs());
    assert(tool_names(r@) =~= seq!["get_zephyr_test_steps"@, "create_zephyr_test_step"@, "update_zephyr_test_step"@, "delete_zephyr_test_step"@]);
    r
}

/// The schemas of the zephyr test case tools, in the order they are listed.
pub open spec fn zephyr_test_case_specs() -> Seq<ToolView> {
    seq![catalogue::get_zephyr_test_cases_spec(), catalogue::create_zephyr_test_case_spec()]
}

/// The zephyr test case tools, in the order they are listed.
pub fn zephyr_test_case_tools() -> (r: Vec<ToolSpec>)
    ensures
        r@.len() == 2,
        tool_names(r@) == seq!["get_zephyr_test_cases"@, "create_zephyr_test_case"@],
        tool_specs(r@) == zephyr_test_case_specs(),
        all_well_formed(r@),
{
    let mut r: Vec<ToolSpec> = Vec::new();
    push_tool(&mut r, catalogue::get_zephyr_test_cases_tool());
    push_tool(&mut r, catalogue::create_zephyr_test_case_tool());
    assert(tool_specs(r@) =~= zephyr_test_case_specs());
    assert(tool_names(r@) =~= seq!["get_zephyr_test_cases"@, "create_zephyr_test_case"@]);
    r
}

/// The schemas of the zephyr execution tools, in the order they are listed.
pub open spec fn zephyr_execution_specs() -> Seq<ToolView> {
    seq![catalogue::get_zephyr_test_executions_spec(), catalogue::create_zephyr_test_execution_spec()]
}

/// The zephyr execution tools, in the order they are listed.
pub fn zephyr_execution_tools() -> (r: Vec<ToolSpec>)
    ensures
        r@.len() == 2,
        tool_names(r@) == seq!["get_zephyr_test_executions"@, "create_zephyr_test_execution"@],
        tool_specs(r@) == zephyr_execution_specs(),
        all_well_formed(r@),
{
    let mut r: Vec<ToolSpec> = Vec::new();
    push_tool(&mut r, catalogue::get_zephyr_test_executions_tool());
    push_tool(&mut r, catalogue::create_zephyr_test_execution_tool());
    assert(tool_specs(r@) =~= zephyr_execution_specs());
    assert(tool_names(r@) =~= seq!["get_zephyr_test_executions"@, "create_zephyr_test_execution"@]);
    r
}

/// The schemas of the zephyr cycle and plan tools, in the order they are listed.
pub open spec fn zephyr_cycle_and_plan_specs() -> Seq<ToolView> {
    seq![catalogue::get_zephyr_test_cycles_spec(), catalogue::get_zephyr_test_plans_spec()]
}

/// The zephyr cycle and plan tools, in the order they are listed.
pub fn zephyr_cycle_and_plan_tools() -> (r: Vec<ToolSpec>)
    ensures
        r@.len() == 2,
        tool_names(r@) == seq!["get_zephyr_test_cycles"@, "get_zephyr_test_plans"@],
        tool_specs(r@) == zephyr_cycle_and_plan_specs(),
        all_well_formed(r@),
{
    let mut r: Vec<ToolSpec> = Vec::new();
    push_tool(&mut r, catalogue::get_zephyr_test_cycles_tool());
    push_tool(&mut r, catalogue::get_zephyr_test_plans_tool());
    assert(tool_specs(r@) =~= zephyr_cycle_and_plan_specs());
    assert(tool_names(r@) =~= seq!["get_zephyr_test_cycles"@, "get_zephyr_test_plans"@]);
    r
}

/// The schemas of the linking tools, in the order they are listed.
pub open spec fn linking_specs() -> Seq<ToolView> {
    seq![catalogue::get_jira_link_types_spec(), catalogue::get_jira_issue_links_spec(), catalogue::create_jira_issue_link_spec(), catalogue::delete_jira_issue_link_spec()]
}

/// The linking tools, in the order they are listed.
pub fn linking_tool_definitions() -> (r: Vec<ToolSpec>)
    ensures
        r@.len() == 4,
        tool_names(r@) == seq!["get_jira_link_types"@, "get_jira_issue_links"@, "create_jira_issue_link"@, "delete_jira_issue_link"@],
        tool_specs(r@) == linking_specs(),
        all_well_formed(r@),
{
    let mut r: Vec<ToolSpec> = Vec::new();
    push_tool(&mut r, catalogue::get_jira_link_types_tool());
    push_tool(&mut r, catalogue::get_jira_issue_links_tool());
    push_tool(&mut r, catalogue::create_jira_issue_link_tool());
    push_tool(&mut r, catalogue::delete_jira_issue_link_tool());
    assert(tool_specs(r@) =~= linking_specs());
    assert(tool_names(r@) =~= seq!["get_jira_link_types"@, "get_jira_issue_links"@, "create_jira_issue_link"@, "delete_jira_issue_link"@]);
    r
}

/// The schemas of the attachment tools, in the order they are listed.
pub open spec fn attachment_specs() -> Seq<ToolView> {
    seq![catalogue::get_jira_issue_attachments_spec(), catalogue::upload_jira_attachment_spec(), catalogue::delete_jira_attachment_spec(), catalogue::download_jira_attachment_spec()]
}

/// The attachment tools, in the order they are listed.
pub fn attachment_tool_definitions() -> (r: Vec<ToolSpec>)
    ensures
        r@.len() == 4,
        tool_names(r@) == seq!["get_jira_issue_attachments"@, "upload_jira_attachment"@, "delete_jira_attachment"@, "download_jira_attachment"@],
        tool_specs(r@) == attachment_specs(),
        all_well_formed(r@),
{
    let mut r: Vec<ToolSpec> = Vec::new();
    push_tool(&mut r, catalogue::get_jira_issue_attachments_tool());
    push_tool(&mut r, catalogue::upload_jira_attachment_tool());
    push_tool(&mut r, catalogue::delete_jira_attachment_tool());
    push_tool(&mut r, catalogue::download_jira_attachment_tool());
    assert(tool_specs(r@) =~= attachment_specs());
    assert(tool_names(r@) =~= seq!["get_jira_issue_attachments"@, "upload_jira_attachment"@, "delete_jira_attachment"@, "download_jira_attachment"@]);
    r
}

/// The schemas of the worklog tools, in the order they are listed.
pub open spec fn worklog_specs() -> Seq<ToolView> {
    seq![catalogue::get_jira_issue_work_logs_spec(), catalogue::add_jira_work_log_spec(), catalogue::update_jira_work_log_spec(), catalogue::delete_jira_work_log_spec()]
}

/// The worklog tools, in the order they are listed.
pub fn worklog_tool_definitions() -> (r: Vec<ToolSpec>)
    ensures
        r@.len() == 4,
        tool_names(r@) == seq!["get_jira_issue_work_logs"@, "add_jira_work_log"@, "update_jira_work_log"@, "delete_jira_work_log"@],
        tool_specs(r@) == worklog_specs(),
        all_well_formed(r@),
{
    let mut r: Vec<ToolSpec> = Vec::new();
    push_tool(&mut r, catalogue::get_jira_issue_work_logs_tool());
    push_tool(&mut r, catalogue::add_jira_work_log_tool());
    push_tool(&mut r, catalogue::update_jira_work_log_tool());
    push_tool(&mut r, catalogue::delete_jira_work_log_tool());
    assert(tool_specs(r@) =~= worklog_specs());
    assert(tool_names(r@) =~= seq!["get_jira_issue_work_logs"@, "add_jira_work_log"@, "update_jira_work_log"@, "delete_jira_work_log"@]);
    r
}

/// The schemas of the watcher tools, in the order they are listed.
pub open spec fn watcher_specs() -> Seq<ToolView> {
    seq![catalogue::get_jira_issue_watchers_spec(), catalogue::add_jira_issue_watcher_spec(), catalogue::remove_jira_issue_watcher_spec()]
}

/// The watcher tools, in the order they are listed.
pub fn watcher_tool_definitions() -> (r: Vec<ToolSpec>)
    ensures
        r@.len() == 3,
        tool_names(r@) == seq!["get_jira_issue_watchers"@, "add_jira_issue_watcher"@, "remove_jira_issue_watcher"@],
        tool_specs(r@) == watcher_specs(),
        all_well_formed(r@),
{
    let mut r: Vec<ToolSpec> = Vec::new();
    push_tool(&mut r, catalogue::get_jira_issue_watchers_tool());
    push_tool(&mut r, catalogue::add_jira_issue_watcher_tool());
    push_tool(&mut r, catalogue::remove_jira_issue_watcher_tool());
    assert(tool_specs(r@) =~= watcher_specs());
    assert(tool_names(r@) =~= seq!["get_jira_issue_watchers"@, "add_jira_issue_watcher"@, "remove_jira_issue_watcher"@]);
    r
}

/// The schemas of the label tools, in the order they are listed.
pub open spec fn label_specs() -> Seq<ToolView> {
    seq![catalogue::get_jira_labels_spec(), catalogue::create_jira_label_spec(), catalogue::update_jira_label_spec(), catalogue::delete_jira_label_spec()]
}

/// The label tools, in the order they are listed.
pub fn label_tool_definitions() -> (r: Vec<ToolSpec>)
    ensures
        r@.len() == 4,
        tool_names(r@) == seq!["get_jira_labels"@, "create_jira_label"@, "update_jira_label"@, "delete_jira_label"@],
        tool_specs(r@) == label_specs(),
        all_well_formed(r@),
{
    let mut r: Vec<ToolSpec> = Vec::new();
    push_tool(&mut r, catalogue::get_jira_labels_tool());
    push_tool(&mut r, catalogue::create_jira_label_tool());
    push_tool(&mut r, catalogue::update_jira_label_tool());
    push_tool(&mut r, catalogue::delete_jira_label_tool());
    assert(tool_specs(r@) =~= label_specs());
    assert(tool_names(r@) =~= seq!["get_jira_labels"@, "create_jira_label"@, "update_jira_label"@, "delete_jira_label"@]);
    r
}

/// The schemas of the component tools, in the order they are listed.
pub open spec fn component_specs() -> Seq<ToolView> {
    seq![catalogue::create_jira_component_spec(), catalogue::update_jira_component_spec(), catalogue::delete_jira_component_spec()]
}

/// The component tools, in the order they are listed.
pub fn component_tool_definitions() -> (r: Vec<ToolSpec>)
    ensures
        r@.len() == 3,
        tool_names(r@) == seq!["create_jira_component"@, "update_jira_component"@, "delete_jira_component"@],
        tool_specs(r@) == component_specs(),
        all_well_formed(r@),
{
    let mut r: Vec<ToolSpec> = Vec::new();
    push_tool(&mut r, catalogue::create_jira_component_tool());
    push_tool(&mut r, catalogue::update_jira_component_tool());
    push_tool(&mut r, catalogue::delete_jira_component_tool());
    assert(tool_specs(r@) =~= component_specs());
    assert(tool_names(r@) =~= seq!["create_jira_component"@, "update_jira_component"@, "delete_jira_component"@]);
    r
}

/// The schemas of the cloning tools, in the order they are listed.
pub open spec fn cloning_specs() -> Seq<ToolView> {
    seq![catalogue::clone_jira_issue_spec()]
}

/// The cloning tools, in the order they are listed.
pub fn cloning_tool_definitions() -> (r: Vec<ToolSpec>)
    ensures
        r@.len() == 1,
        tool_names(r@) == seq!["clone_jira_issue"@],
        tool_specs(r@) == cloning_specs(),
        all_well_formed(r@),
{
    let mut r: Vec<ToolSpec> = Vec::new();
    push_tool(&mut r, catalogue::clone_jira_issue_tool());
    assert(tool_specs(r@) =~= cloning_specs());
    assert(tool_names(r@) =~= seq!["clone_jira_issue"@]);
    r
}

/// The schemas of the sprint tools, in the order they are listed.
pub open spec fn sprint_specs() -> Seq<ToolView> {
    seq![catalogue::get_sprint_spec(), catalogue::create_sprint_spec(), catalogue::add_issues_to_sprint_spec(), catalogue::get_sprint_issues_spec(), catalogue::start_sprint_spec(), catalogue::close_sprint_spec(), catalogue::get_board_sprints_spec()]
}

/// The sprint tools, in the order they are listed.
pub fn sprint_tool_definitions() -> (r: Vec<ToolSpec>)
    ensures
        r@.len() == 7,
        tool_names(r@) == seq!["get_sprint"@, "create_sprint"@, "add_issues_to_sprint"@, "get_sprint_issues"@, "start_sprint"@, "close_sprint"@, "get_board_sprints"@],
        tool_specs(r@) == sprint_specs(),
        all_well_formed(r@),
{
    let mut r: Vec<ToolSpec> = Vec::new();
    push_tool(&mut r, catalogue::get_sprint_tool());
    push_tool(&mut r, catalogue::create_sprint_tool());
    push_tool(&mut r, catalogue::add_issues_to_sprint_tool());
    push_tool(&mut r, catalogue::get_sprint_issues_tool());
    push_tool(&mut r, catalogue::start_sprint_tool());
    push_tool(&mut r, catalogue::close_sprint_tool());
    push_tool(&mut r, catalogue::get_board_sprints_tool());
    assert(tool_specs(r@) =~= sprint_specs());
    assert(tool_names(r@) =~= seq!["get_sprint"@, "create_sprint"@, "add_issues_to_sprint"@, "get_sprint_issues"@, "start_sprint"@, "close_sprint"@, "get_board_sprints"@]);
    r
}

fn extend_tools(r: &mut Vec<ToolSpec>, part: Vec<ToolSpec>)
    requires
        all_well_formed(old(r)@),
        all_well_formed(part@),
    ensures
        final(r)@ == old(r)@ + part@,
        tool_specs(final(r)@) == tool_specs(old(r)@) + tool_specs(part@),
        all_well_formed(final(r)@),
{
    let mut part = part;
    proof {
        lemma_tools_concat(r@, part@);
    }
    r.append(&mut part);
}

/// The schemas of the basic tools: authentication and search, issues,
/// comments and transitions.
pub open spec fn basic_specs() -> Seq<ToolView> {
    auth_and_search_specs() + issue_crud_specs() + comment_and_transition_specs()
}

/// The basic tools: authentication and search, issues, comments and
/// transitions.
pub fn basic_tool_definitions() -> (r: Vec<ToolSpec>)
    ensures
        r@.len() == 9,
        tool_specs(r@) == basic_specs(),
        all_well_formed(r@),
{
    let mut r = auth_and_search_tools();
    extend_tools(&mut r, issue_crud_tools());
    extend_tools(&mut r, comment_and_transition_tools());
    r
}

/// The schemas of the bulk tools.
pub open spec fn bulk_specs() -> Seq<ToolView> {
    simple_bulk_specs() + mixed_bulk_specs()
}

/// The bulk tools: the simple ones, then the mixed one.
pub fn bulk_tool_definitions() -> (r: Vec<ToolSpec>)
    ensures
        r@.len() == 4,
        tool_specs(r@) == bulk_specs(),
        all_well_formed(r@),
{
    let mut r = simple_bulk_tools();
    extend_tools(&mut r, mixed_bulk_tools());
    r
}

/// The schemas of the Zephyr tools.
pub open spec fn zephyr_specs() -> Seq<ToolView> {
    zephyr_test_step_specs() + zephyr_test_case_specs() + zephyr_execution_specs() + zephyr_cycle_and_plan_specs()
}

/// The Zephyr tools: test steps, test cases, executions, cycles and plans.
pub fn zephyr_tool_definitions() -> (r: Vec<ToolSpec>)
    ensures
        r@.len() == 10,
        tool_specs(r@) == zephyr_specs(),
        all_well_formed(r@),
{
    let mut r = zephyr_test_step_tools();
    extend_tools(&mut r, zephyr_test_case_tools());
    extend_tools(&mut r, zephyr_execution_tools());
    extend_tools(&mut r, zephyr_cycle_and_plan_tools());
    r
}

/// Every tool of the catalogue, as the server lists them: each with its
/// description and arguments, group after group.
pub open spec fn catalogue_specs() -> Seq<ToolView> {
    basic_specs() + project_specs() + bulk_specs() + zephyr_specs() + linking_specs() + attachment_specs()
        + worklog_specs() + watcher_specs() + label_specs() + component_specs() + cloning_specs()
        + sprint_specs()
}

/// The tools the server lists to its clients: each with its description and
/// the schema of its arguments, every required argument among them.
pub fn list_tools() -> (r: Vec<ToolSpec>)
    ensures
        r@.len() == 60,
        tool_specs(r@) == catalogue_specs(),
        tool_names(r@) == advertised_tool_names(),
        all_well_formed(r@),
{
    let mut r = basic_tool_definitions();
    extend_tools(&mut r, project_tool_definitions());
    extend_tools(&mut r, bulk_tool_definitions());
    extend_tools(&mut r, zephyr_tool_definitions());
    extend_tools(&mut r, linking_tool_definitions());
    extend_tools(&mut r, attachment_tool_definitions());
    extend_tools(&mut r, worklog_tool_definitions());
    extend_tools(&mut r, watcher_tool_definitions());
    extend_tools(&mut r, label_tool_definitions());
    extend_tools(&mut r, component_tool_definitions());
    extend_tools(&mut r, cloning_tool_definitions());
    extend_tools(&mut r, sprint_tool_definitions());
    assert(tool_names(r@) =~= spec_names(tool_specs(r@)));
    r
}

/// The names of the tools the server lists to its clients, in order.
pub open spec fn advertised_tool_names() -> Seq<Seq<char>> {
    spec_names(catalogue_specs())
}

/// The names of the tools the server has a handler for: those it
/// advertises, and the older name under which issues are linked.
pub open spec fn handled_tool_names() -> Seq<Seq<char>> {
    advertised_tool_names().push("link_jira_issues"@)
}

/// The names of the tools the server lists to its clients, in order.
pub fn advertised_tools() -> (r: Vec<&'static str>)
    ensures
        str_views(r@) == advertised_tool_names(),
{
    let tools = list_tools();
    let mut r: Vec<&'static str> = Vec::new();
    let mut i: usize = 0;
    while i < tools.len()
        invariant
            i <= tools@.len(),
            tool_names(tools@) == advertised_tool_names(),
            r@.len() == i,
            forall|j: int| 0 <= j < i ==> (#[trigger] r@[j])@ == tools@[j].name@,
        decreases tools@.len() - i,
    {
        r.push(tools[i].name);
        i = i + 1;
    }
    assert(str_views(r@) =~= tool_names(tools@));
    r
}

/// The names of the tools the server has a handler for.
pub fn handled_tools() -> (r: Vec<&'static str>)
    ensures
        str_views(r@) == handled_tool_names(),
{
    let mut r = advertised_tools();
    let ghost advertised = r@;
    r.push("link_jira_issues");
    assert(str_views(r@) =~= str_views(advertised).push("link_jira_issues"@));
    r
}

/// Finds the handler of a called tool: its place among the handled tools,
/// or the error of an unknown tool.
pub fn find_tool(name: &str) -> (r: Result<usize, JiraError>)
    ensures
        r matches Ok(i) ==> i < handled_tool_names().len() && handled_tool_names()[i as int] == name@,
        r is Err <==> !handled_tool_names().contains(name@),
        r matches Err(e) ==> (e matches JiraError::Unknown { message: m } && m@ == "Unknown tool: "@
            + name@),
{
    let tools = handled_tools();
    let n = tools.len();
    let mut i: usize = 0;
    while i < n
        invariant
            n == tools@.len(),
            str_views(tools@) == handled_tool_names(),
            i <= n,
            forall|j: int| 0 <= j < i ==> handled_tool_names()[j] != name@,
        decreases n - i,
    {
        assert(str_views(tools@)[i as int] == tools@[i as int]@);
        if str_equal(tools[i], name) {
            return Ok(i);
        }
        i = i + 1;
    }
    let mut message = String::new();
    append_str(&mut message, "Unknown tool: ");
    append_str(&mut message, name);
    Err(JiraError::unknown_error(message.as_str()))
}

/// The error of a tool called without one of its required arguments.
pub fn missing_parameter(name: &str) -> (r: JiraError)
    ensures
        r matches JiraError::ApiError { message, error_codes: None } && message@
            == "Missing required parameter: "@ + name@,
{
    let mut message = String::new();
    append_str(&mut message, "Missing required parameter: ");
    append_str(&mut message, name);
    JiraError::api_error(message.as_str())
}

/// Every tool the server lists to its clients can be called: each
/// advertised name has a handler.
pub proof fn law_advertised_tools_are_handled()
    ensures
        forall|i: int|
            0 <= i < advertised_tool_names().len() ==> handled_tool_names().contains(
                #[trigger] advertised_tool_names()[i],
            ),
{
    assert forall|i: int|
        0 <= i < advertised_tool_names().len() implies handled_tool_names().contains(
        #[trigger] advertised_tool_names()[i],
    ) by {
        assert(handled_tool_names()[i] == advertised_tool_names()[i]);
    }
}

} // verus!
