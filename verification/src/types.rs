//! The Jira and Zephyr records that the library works with, and the
//! bookkeeping of bulk operations.
use vstd::prelude::*;

verus! {

/// Jira project representation
#[derive(Clone, Debug)]
pub struct JiraProject {
    pub id: String,
    pub key: String,
    pub name: String,
    pub project_type_key: String,
    pub self_url: String,
}

/// Jira user representation
#[derive(Clone, Debug)]
pub struct JiraUser {
    pub account_id: String,
    pub display_name: String,
    pub email_address: Option<String>,
    pub active: bool,
    pub time_zone: Option<String>,
}

/// Jira issue type representation
#[derive(Clone, Debug)]
pub struct JiraIssueType {
    pub id: String,
    pub name: String,
    pub description: Option<String>,
    pub icon_url: Option<String>,
    pub subtask: bool,
}

/// Jira priority representation
#[derive(Clone, Debug)]
pub struct JiraPriority {
    pub id: String,
    pub name: String,
    pub description: Option<String>,
    pub icon_url: Option<String>,
}

/// Jira status representation
#[derive(Clone, Debug)]
pub struct JiraStatus {
    pub id: String,
    pub name: String,
    pub description: Option<String>,
    pub icon_url: Option<String>,
    pub status_category: JiraStatusCategory,
}

/// Jira status category representation
#[derive(Clone, Debug)]
pub struct JiraStatusCategory {
    pub id: i32,
    pub key: String,
    pub color_name: String,
    pub name: String,
}

/// Jira component representation
#[derive(Clone, Debug)]
pub struct JiraComponent {
    pub id: String,
    pub name: String,
    pub description: Option<String>,
    pub self_url: String,
}

/// Jira comment representation
#[derive(Clone, Debug)]
pub struct JiraComment {
    pub id: String,
    pub body: String,
    pub author: JiraUser,
    pub created: String,
    pub updated: Option<String>,
}

/// Jira transition representation
#[derive(Clone, Debug)]
pub struct JiraTransition {
    pub id: String,
    pub name: String,
    pub to: JiraStatus,
    pub properties: TransitionProperties,
}

/// Properties of a Jira transition
#[derive(Clone, Copy, Debug, PartialEq, Eq, Structural)]
pub struct TransitionProperties {
    pub screen: ScreenProperty,
    pub scope: ScopeProperty,
    pub availability: AvailabilityProperty,
    pub conditionality: ConditionalityProperty,
}

/// Screen property of a transition
#[derive(Clone, Copy, Debug, PartialEq, Eq, Structural)]
pub enum ScreenProperty {
    HasScreen,
    NoScreen,
}

/// Scope property of a transition
#[derive(Clone, Copy, Debug, PartialEq, Eq, Structural)]
pub enum ScopeProperty {
    Global,
    Local,
}

/// Availability property of a transition
#[derive(Clone, Copy, Debug, PartialEq, Eq, Structural)]
pub enum AvailabilityProperty {
    Available,
    Unavailable,
}

/// Conditionality property of a transition
#[derive(Clone, Copy, Debug, PartialEq, Eq, Structural)]
pub enum ConditionalityProperty {
    Conditional,
    Unconditional,
}

impl TransitionProperties {
    /// Every property at its negative value: no screen, local, unavailable,
    /// unconditional.
    pub fn new() -> (r: Self)
        ensures
            r == (TransitionProperties {
                screen: ScreenProperty::NoScreen,
                scope: ScopeProperty::Local,
                availability: AvailabilityProperty::Unavailable,
                conditionality: ConditionalityProperty::Unconditional,
            }),
    {
        TransitionProperties {
            screen: ScreenProperty::NoScreen,
            scope: ScopeProperty::Local,
            availability: AvailabilityProperty::Unavailable,
            conditionality: ConditionalityProperty::Unconditional,
        }
    }

    /// Every property at its positive value: has a screen, global,
    /// available, conditional.
    pub fn with_all_properties() -> (r: Self)
        ensures
            r == (TransitionProperties {
                screen: ScreenProperty::HasScreen,
                scope: ScopeProperty::Global,
                availability: AvailabilityProperty::Available,
                conditionality: ConditionalityProperty::Conditional,
            }),
    {
        TransitionProperties {
            screen: ScreenProperty::HasScreen,
            scope: ScopeProperty::Global,
            availability: AvailabilityProperty::Available,
            conditionality: ConditionalityProperty::Conditional,
        }
    }
}

impl Default for TransitionProperties {
    fn default() -> (r: Self)
        ensures
            r == (TransitionProperties {
                screen: ScreenProperty::NoScreen,
                scope: ScopeProperty::Local,
                availability: AvailabilityProperty::Unavailable,
                conditionality: ConditionalityProperty::Unconditional,
            }),
    {
        TransitionProperties::new()
    }
}

/// Jira work log representation
#[derive(Clone, Debug)]
pub struct JiraWorkLog {
    pub id: String,
    pub comment: Option<String>,
    pub time_spent: String,
    pub time_spent_seconds: i32,
    pub author: JiraUser,
    pub created: String,
    pub updated: Option<String>,
}

/// Zephyr test step representation
#[derive(Clone, Debug)]
pub struct ZephyrTestStep {
    pub id: String,
    pub step: String,
    pub data: Option<String>,
    pub result: Option<String>,
    pub order: i32,
}

/// Jira link type representation
#[derive(Clone, Debug)]
pub struct JiraLinkType {
    pub id: String,
    pub name: String,
    pub inward: String,
    pub outward: String,
    pub self_url: String,
}

/// Bulk operation types
#[derive(Clone, Copy, Debug, PartialEq, Eq, Structural)]
pub enum BulkOperationType {
    Update,
    Transition,
    AddComment,
    Mixed,
}

/// Bulk operation configuration
#[derive(Clone, Copy, Debug, PartialEq, Eq, Structural)]
pub struct BulkOperationConfig {
    pub batch_size: Option<usize>,
    pub continue_on_error: bool,
    pub rate_limit_ms: Option<u64>,
    pub max_retries: Option<usize>,
}

impl Default for BulkOperationConfig {
    /// Batches of 10, continuing on errors, 100 ms between operations, at
    /// most 3 retries.
    fn default() -> (r: Self)
        ensures
            r == (BulkOperationConfig {
                batch_size: Some(10),
                continue_on_error: true,
                rate_limit_ms: Some(100),
                max_retries: Some(3),
            }),
    {
        BulkOperationConfig {
            batch_size: Some(10),
            continue_on_error: true,
            rate_limit_ms: Some(100),
            max_retries: Some(3),
        }
    }
}

/// Result of a single operation within a bulk operation
#[derive(Clone, Debug)]
pub struct BulkOperationResult {
    pub issue_key: String,
    pub success: bool,
    pub error_message: Option<String>,
    pub operation_type: BulkOperationType,
}

/// Result of a complete bulk operation
#[derive(Clone, Debug)]
pub struct BulkOperationSummary {
    pub total_operations: usize,
    pub successful_operations: usize,
    pub failed_operations: usize,
    pub results: Vec<BulkOperationResult>,
    pub duration_ms: u64,
}

/// The summary counts agree with its results: every result is counted once,
/// as a success or as a failure.
pub open spec fn summary_consistent(s: BulkOperationSummary) -> bool {
    &&& s.total_operations == s.results@.len()
    &&& s.successful_operations + s.failed_operations == s.total_operations
    &&& s.successful_operations == successes(s.results@)
}

/// `after` is `before` with `result` counted, as a success or as a
/// failure, and kept after the earlier results.
pub open spec fn result_added(
    before: BulkOperationSummary,
    after: BulkOperationSummary,
    result: BulkOperationResult,
) -> bool {
    &&& after.total_operations == before.total_operations + 1
    &&& after.successful_operations == before.successful_operations + if result.success {
        1int
    } else {
        0
    }
    &&& after.failed_operations == before.failed_operations + if result.success {
        0int
    } else {
        1
    }
    &&& after.results@ == before.results@.push(result)
    &&& after.duration_ms == before.duration_ms
}

/// Adding a result keeps a summary consistent: the total stays the number
/// of results and the sum of successes and failures, and the successes
/// stay the successful results.
pub proof fn law_add_result_keeps_summary_consistent(
    before: BulkOperationSummary,
    after: BulkOperationSummary,
    result: BulkOperationResult,
)
    requires
        summary_consistent(before),
        result_added(before, after, result),
    ensures
        summary_consistent(after),
        after.results@.last() == result,
{
    assert(after.results@.drop_last() =~= before.results@);
}

/// The number of successful results.
pub open spec fn successes(results: Seq<BulkOperationResult>) -> nat
    decreases results.len(),
{
    if results.len() == 0 {
        0
    } else {
        successes(results.drop_last()) + if results.last().success {
            1nat
        } else {
            0nat
        }
    }
}

impl BulkOperationSummary {
    /// An empty summary.
    pub fn new() -> (r: Self)
        ensures
            r.total_operations == 0,
            r.successful_operations == 0,
            r.failed_operations == 0,
            r.results@.len() == 0,
            r.duration_ms == 0,
            summary_consistent(r),
    {
        BulkOperationSummary {
            total_operations: 0,
            successful_operations: 0,
            failed_operations: 0,
            results: Vec::new(),
            duration_ms: 0,
        }
    }

    /// Counts one more result and keeps it.
    pub fn add_result(&mut self, result: BulkOperationResult)
        requires
            old(self).total_operations < usize::MAX,
            old(self).successful_operations < usize::MAX,
            old(self).failed_operations < usize::MAX,
        ensures
            result_added(*old(self), *final(self), result),
            summary_consistent(*old(self)) ==> summary_consistent(*final(self)),
    {
        self.total_operations += 1;
        if result.success {
            self.successful_operations += 1;
        } else {
            self.failed_operations += 1;
        }
        let ghost before = self.results@;
        self.results.push(result);
        assert(self.results@.drop_last() =~= before);
    }
}

impl Default for BulkOperationSummary {
    fn default() -> (r: Self)
        ensures
            r.total_operations == 0,
            r.successful_operations == 0,
            r.failed_operations == 0,
            r.results@.len() == 0,
            r.duration_ms == 0,
    {
        BulkOperationSummary::new()
    }
}

} // verus!
