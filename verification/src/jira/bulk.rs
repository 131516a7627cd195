//! Bulk operations: what each item asks for, and the order in which a bulk
//! run attempts items, retries them and pauses between them.
use crate::error::{jira_error_text, status_text, JiraError};
use crate::text;
use crate::types::{summary_consistent, BulkOperationConfig, BulkOperationResult, BulkOperationSummary, BulkOperationType};
use vstd::prelude::*;
use vstd::string::*;

verus! {

/// What an item's data says, as far as the operation reads it.
pub struct OperationData {
    /// The data has a `fields` entry.
    pub has_fields: bool,
    /// The `transition_id` entry: absent, present but not a string, or its text.
    pub transition_id: Option<Option<String>>,
    /// The `comment` entry when it is a string.
    pub comment: Option<String>,
    /// The `comment_body` entry: absent, present but not a string, or its text.
    pub comment_body: Option<Option<String>>,
}

/// Individual operation within a bulk operation.
pub struct BulkOperationItem {
    pub issue_key: String,
    pub operation_type: BulkOperationType,
    pub data: OperationData,
}

/// The request an item comes down to.
pub enum ResolvedOperation {
    /// Update the issue with the item's data.
    UpdateFields,
    /// Move the issue through a transition, with an optional comment.
    Transition { transition_id: String, comment: Option<String> },
    /// Add a comment to the issue.
    AddComment { body: String },
}

/// The transition request of an item's data, or the error for a missing id.
pub open spec fn transition_ok(data: OperationData, r: Result<ResolvedOperation, JiraError>) -> bool {
    match data.transition_id {
        Some(Some(id)) => r matches Ok(ResolvedOperation::Transition { transition_id, comment })
            && transition_id@ == id@ && text::opt_view(comment) == text::opt_view(data.comment),
        _ => r matches Err(JiraError::ApiError { message, error_codes: None }) && message@
            == "Missing transition_id in operation data"@,
    }
}

/// The comment request of an item's data, or the error for a missing body.
pub open spec fn comment_ok(data: OperationData, r: Result<ResolvedOperation, JiraError>) -> bool {
    match data.comment_body {
        Some(Some(b)) => r matches Ok(ResolvedOperation::AddComment { body }) && body@ == b@,
        _ => r matches Err(JiraError::ApiError { message, error_codes: None }) && message@
            == "Missing comment_body in operation data"@,
    }
}

fn clone_opt(o: &Option<String>) -> (r: Option<String>)
    ensures
        r == *o,
{
    match o {
        Some(s) => Some(s.clone()),
        None => None,
    }
}

fn resolve_transition(data: &OperationData) -> (r: Result<ResolvedOperation, JiraError>)
    ensures
        transition_ok(*data, r),
{
    match &data.transition_id {
        Some(Some(id)) => Ok(
            ResolvedOperation::Transition {
                transition_id: id.clone(),
                comment: clone_opt(&data.comment),
            },
        ),
        _ => Err(JiraError::api_error("Missing transition_id in operation data")),
    }
}

fn resolve_comment(data: &OperationData) -> (r: Result<ResolvedOperation, JiraError>)
    ensures
        comment_ok(*data, r),
{
    match &data.comment_body {
        Some(Some(b)) => Ok(ResolvedOperation::AddComment { body: b.clone() }),
        _ => Err(JiraError::api_error("Missing comment_body in operation data")),
    }
}

/// What an item asks for. A mixed item is an update when its data has
/// fields, else a transition when it has a transition id, else a comment
/// when it has a comment body.
pub fn resolve_operation(item: &BulkOperationItem) -> (r: Result<ResolvedOperation, JiraError>)
    ensures
        match item.operation_type {
            BulkOperationType::Update => r matches Ok(ResolvedOperation::UpdateFields),
            BulkOperationType::Transition => transition_ok(item.data, r),
            BulkOperationType::AddComment => comment_ok(item.data, r),
            BulkOperationType::Mixed => if item.data.has_fields {
                r matches Ok(ResolvedOperation::UpdateFields)
            } else if item.data.transition_id is Some {
                transition_ok(item.data, r)
            } else if item.data.comment_body is Some {
                comment_ok(item.data, r)
            } else {
                r matches Err(JiraError::ApiError { message, error_codes: None }) && message@
                    == "Unable to determine operation type from data"@
            },
        },
{
    match item.operation_type {
        BulkOperationType::Update => Ok(ResolvedOperation::UpdateFields),
        BulkOperationType::Transition => resolve_transition(&item.data),
        BulkOperationType::AddComment => resolve_comment(&item.data),
        BulkOperationType::Mixed => {
            if item.data.has_fields {
                Ok(ResolvedOperation::UpdateFields)
            } else if item.data.transition_id.is_some() {
                resolve_transition(&item.data)
            } else if item.data.comment_body.is_some() {
                resolve_comment(&item.data)
            } else {
                Err(JiraError::api_error("Unable to determine operation type from data"))
            }
        },
    }
}

/// The data of a bulk transition: the transition id and the optional comment.
pub fn transition_data(transition_id: String, comment: Option<String>) -> (r: OperationData)
    ensures
        !r.has_fields,
        r.transition_id == Some(Some(transition_id)),
        r.comment == comment,
        r.comment_body is None,
{
    OperationData { has_fields: false, transition_id: Some(Some(transition_id)), comment, comment_body: None }
}

/// The data of a bulk comment: the comment body.
pub fn comment_data(comment_body: String) -> (r: OperationData)
    ensures
        !r.has_fields,
        r.transition_id is None,
        r.comment is None,
        r.comment_body == Some(Some(comment_body)),
{
    OperationData { has_fields: false, transition_id: None, comment: None, comment_body: Some(Some(comment_body)) }
}

fn clone_data(d: &OperationData) -> (r: OperationData)
    ensures
        r == *d,
{
    OperationData {
        has_fields: d.has_fields,
        transition_id: match &d.transition_id {
            Some(t) => Some(clone_opt(t)),
            None => None,
        },
        comment: clone_opt(&d.comment),
        comment_body: match &d.comment_body {
            Some(b) => Some(clone_opt(b)),
            None => None,
        },
    }
}

/// One item per issue key, in order, all of the same kind and data.
pub fn bulk_items(issue_keys: Vec<String>, operation_type: BulkOperationType, data: OperationData) -> (r: Vec<
    BulkOperationItem,
>)
    ensures
        r@.len() == issue_keys@.len(),
        forall|i: int|
            0 <= i < r@.len() ==> (#[trigger] r@[i]).issue_key == issue_keys@[i] && r@[i].operation_type
                == operation_type && r@[i].data == data,
{
    let mut items: Vec<BulkOperationItem> = Vec::new();
    let mut i: usize = 0;
    while i < issue_keys.len()
        invariant
            i <= issue_keys@.len(),
            items@.len() == i,
            forall|j: int|
                0 <= j < i ==> (#[trigger] items@[j]).issue_key == issue_keys@[j] && items@[j].operation_type
                    == operation_type && items@[j].data == data,
        decreases issue_keys@.len() - i,
    {
        items.push(
            BulkOperationItem {
                issue_key: issue_keys[i].clone(),
                operation_type,
                data: clone_data(&data),
            },
        );
        i = i + 1;
    }
    items
}

/// The largest number of items a bulk request may hold.
pub open spec fn max_bulk_items() -> int {
    100
}

/// What the next step of a bulk run is.
pub enum BulkStep {
    /// Attempt the item at this index.
    Attempt(usize),
    /// Pause for this many milliseconds.
    Wait(u64),
    /// The run is over.
    Done,
}

/// What a run reads of its items: each one's issue key and kind, in order.
pub open spec fn item_views(items: Seq<BulkOperationItem>) -> Seq<(Seq<char>, BulkOperationType)> {
    Seq::new(items.len(), |i: int| (items[i].issue_key@, items[i].operation_type))
}

/// A bulk run: items are attempted in order in batches; a failed attempt
/// with a transient error is retried after a delay of one second per retry
/// so far, up to `max_retries` times; with a rate limit, the run pauses
/// after every item and again at the end of every batch. Without
/// `continue_on_error`, the first item that fails for good ends the run.
pub struct BulkRun {
    items: Vec<(String, BulkOperationType)>,
    batch_size: usize,
    rate_limit_ms: Option<u64>,
    max_retries: usize,
    continue_on_error: bool,
    next: usize,
    in_batch: usize,
    retries: usize,
    retry_wait: Option<u64>,
    item_pause_due: bool,
    batch_pause_due: bool,
    halted: bool,
    summary: BulkOperationSummary,
}

/// The error that a bulk request with too many items gets.
pub open spec fn too_many_items(r: Result<BulkRun, JiraError>) -> bool {
    r matches Err(JiraError::ApiError { message, error_codes: None }) && message@
        == "Maximum 100 operations allowed per bulk request"@
}

impl BulkRun {
    /// The run's counters agree with each other and with its summary, and
    /// the i-th result is that of the i-th item.
    pub closed spec fn wf(&self) -> bool {
        &&& 0 < self.batch_size
        &&& self.next <= self.items@.len()
        &&& self.in_batch < self.batch_size
        &&& self.retries <= self.max_retries
        &&& self.summary.total_operations == self.next
        &&& summary_consistent(self.summary)
        &&& self.items@.len() <= 100
        &&& (self.item_pause_due || self.batch_pause_due) ==> self.rate_limit_ms is Some
        &&& self.halted ==> !self.item_pause_due && !self.batch_pause_due && self.retry_wait is None
            && !self.continue_on_error
        &&& forall|i: int|
            0 <= i < self.next ==> (#[trigger] self.summary.results@[i]).issue_key@ == self.items@[i].0@
                && self.summary.results@[i].operation_type == self.items@[i].1
    }

    /// The items of the run: issue key and kind.
    pub closed spec fn items(&self) -> Seq<(Seq<char>, BulkOperationType)> {
        Seq::new(self.items@.len(), |i: int| (self.items@[i].0@, self.items@[i].1))
    }

    /// Items in the run.
    pub closed spec fn total(&self) -> nat {
        self.items().len()
    }

    /// Items finished so far (each has its result).
    pub closed spec fn finished(&self) -> nat {
        self.next as nat
    }

    /// Retries spent on the item being worked on.
    pub closed spec fn retries_spent(&self) -> nat {
        self.retries as nat
    }

    /// The retry limit.
    pub closed spec fn retry_limit(&self) -> nat {
        self.max_retries as nat
    }

    /// The items per batch.
    pub closed spec fn batch(&self) -> nat {
        self.batch_size as nat
    }

    /// Items finished in the current batch.
    pub closed spec fn done_in_batch(&self) -> nat {
        self.in_batch as nat
    }

    /// The pause between items.
    pub closed spec fn rate_limit(&self) -> Option<u64> {
        self.rate_limit_ms
    }

    /// Whether the run goes on after an item failed.
    pub closed spec fn continues_on_error(&self) -> bool {
        self.continue_on_error
    }

    /// Whether a failed item has ended the run.
    pub closed spec fn halted(&self) -> bool {
        self.halted
    }

    /// The retry delay due before the next attempt.
    pub closed spec fn retry_delay(&self) -> Option<u64> {
        self.retry_wait
    }

    /// Whether the pause after an item is due.
    pub closed spec fn item_pause(&self) -> bool {
        self.item_pause_due
    }

    /// Whether the pause at the end of a batch is due.
    pub closed spec fn batch_pause(&self) -> bool {
        self.batch_pause_due
    }

    /// The results so far.
    pub closed spec fn results(&self) -> Seq<BulkOperationResult> {
        self.summary.results@
    }

    /// The summary so far.
    pub closed spec fn summary_so_far(&self) -> BulkOperationSummary {
        self.summary
    }

    /// Starts a run over `items`: more than 100 items are refused before
    /// anything else is looked at; the batch size defaults to 10 and the
    /// retry limit to 3. A batch size of 0 cannot be split into batches.
    pub fn start(items: &Vec<BulkOperationItem>, config: &BulkOperationConfig) -> (r: Result<Self, JiraError>)
        requires
            items@.len() <= max_bulk_items() ==> config.batch_size != Some(0usize),
        ensures
            items@.len() > max_bulk_items() ==> too_many_items(r),
            items@.len() <= max_bulk_items() ==> (r matches Ok(run) && run.wf() && run.items()
                == item_views(items@) && run.total() == items@.len() && run.finished() == 0
                && run.retries_spent() == 0 && run.batch() == match config.batch_size {
                Some(b) => b,
                None => 10,
            } && run.retry_limit() == match config.max_retries {
                Some(m) => m,
                None => 3,
            } && run.rate_limit() == config.rate_limit_ms && run.continues_on_error()
                == config.continue_on_error && !run.halted() && run.retry_delay() is None
                && !run.item_pause() && !run.batch_pause() && run.results().len() == 0
                && run.done_in_batch() == 0),
    {
        if items.len() > 100 {
            return Err(JiraError::api_error("Maximum 100 operations allowed per bulk request"));
        }
        let batch_size = match config.batch_size {
            Some(b) => b,
            None => 10,
        };
        let max_retries = match config.max_retries {
            Some(m) => m,
            None => 3,
        };
        let mut entries: Vec<(String, BulkOperationType)> = Vec::new();
        let mut i: usize = 0;
        while i < items.len()
            invariant
                i <= items@.len(),
                entries@.len() == i,
                forall|j: int|
                    0 <= j < i ==> (#[trigger] entries@[j]).0@ == items@[j].issue_key@ && entries@[j].1
                        == items@[j].operation_type,
            decreases items@.len() - i,
        {
            entries.push((items[i].issue_key.clone(), items[i].operation_type));
            i = i + 1;
        }
        let run = BulkRun {
            items: entries,
            batch_size,
            rate_limit_ms: config.rate_limit_ms,
            max_retries,
            continue_on_error: config.continue_on_error,
            next: 0,
            in_batch: 0,
            retries: 0,
            retry_wait: None,
            item_pause_due: false,
            batch_pause_due: false,
            halted: false,
            summary: BulkOperationSummary::new(),
        };
        assert(run.items() =~= item_views(items@));
        Ok(run)
    }

    /// The next step: a due retry delay, then a due pause after an item,
    /// then a due pause after a batch, then the next attempt, else the end
    /// (all items finished, or a failure ended the run).
    pub fn next_step(&mut self) -> (r: BulkStep)
        requires
            old(self).wf(),
        ensures
            final(self).wf(),
            step_taken(*old(self), *final(self), r),
    {
        if let Some(d) = self.retry_wait {
            self.retry_wait = None;
            return BulkStep::Wait(d);
        }
        if self.item_pause_due {
            self.item_pause_due = false;
            return BulkStep::Wait(self.rate_limit_ms.unwrap());
        }
        if self.batch_pause_due {
            self.batch_pause_due = false;
            return BulkStep::Wait(self.rate_limit_ms.unwrap());
        }
        if self.next < self.items.len() && !self.halted {
            BulkStep::Attempt(self.next)
        } else {
            BulkStep::Done
        }
    }

    /// Takes in how the attempt at the current item ended. A transient
    /// error within the retry limit schedules a retry; anything else
    /// finishes the item with its result, and either ends the run (a
    /// failure without `continue_on_error`) or sets the pauses that the
    /// rate limit calls for.
    pub fn attempt_finished(&mut self, outcome: Result<(), JiraError>)
        requires
            old(self).wf(),
            old(self).finished() < old(self).total(),
            !old(self).halted(),
            old(self).retry_delay() is None,
            !old(self).item_pause(),
            !old(self).batch_pause(),
            outcome matches Err(e) ==> (e is HttpError ==> 100 <= e->HttpError_status <= 999),
            outcome matches Err(e) ==> (old(self).retries_spent() < old(self).retry_limit()
                && e.is_transient_error() ==> 1000 * (old(self).retries_spent() + 1) <= u64::MAX),
        ensures
            final(self).wf(),
            attempt_recorded(*old(self), *final(self), outcome),
    {
        match outcome {
            Err(e) => {
                if self.retries < self.max_retries && e.is_transient() {
                    self.retries = self.retries + 1;
                    self.retry_wait = Some(1000 * (self.retries as u64));
                    return;
                }
                let message = e.to_string();
                let issue_key = self.items[self.next].0.clone();
                let operation_type = self.items[self.next].1;
                self.finish_item(
                    BulkOperationResult {
                        issue_key,
                        success: false,
                        error_message: Some(message),
                        operation_type,
                    },
                );
            },
            Ok(()) => {
                let issue_key = self.items[self.next].0.clone();
                let operation_type = self.items[self.next].1;
                self.finish_item(
                    BulkOperationResult { issue_key, success: true, error_message: None, operation_type },
                );
            },
        }
    }

    fn finish_item(&mut self, result: BulkOperationResult)
        requires
            old(self).wf(),
            old(self).finished() < old(self).total(),
            !old(self).halted(),
            !old(self).item_pause(),
            !old(self).batch_pause(),
            old(self).retry_delay() is None,
            result.issue_key@ == old(self).items()[old(self).finished() as int].0,
            result.operation_type == old(self).items()[old(self).finished() as int].1,
        ensures
            final(self).wf(),
            finished_item(*old(self), *final(self), result.success, text::opt_view(result.error_message)),
            final(self).results().last() == result,
            final(self).items() == old(self).items(),
            final(self).retry_limit() == old(self).retry_limit(),
            final(self).batch() == old(self).batch(),
            final(self).rate_limit() == old(self).rate_limit(),
            final(self).continues_on_error() == old(self).continues_on_error(),
    {
        let success = result.success;
        self.summary.add_result(result);
        assert(self.summary.results@.drop_last() =~= old(self).summary.results@);
        assert forall|i: int| 0 <= i < self.next + 1 implies (#[trigger] self.summary.results@[i]).issue_key@
            == self.items@[i].0@ && self.summary.results@[i].operation_type == self.items@[i].1 by {
            if i < self.next {
                assert(self.summary.results@[i] == old(self).summary.results@[i]);
            }
        }
        self.next = self.next + 1;
        self.retries = 0;
        let batch_ended = self.in_batch + 1 == self.batch_size || self.next == self.items.len();
        if self.in_batch + 1 == self.batch_size {
            self.in_batch = 0;
        } else {
            self.in_batch = self.in_batch + 1;
        }
        if !success && !self.continue_on_error {
            self.halted = true;
        } else if self.rate_limit_ms.is_some() {
            self.item_pause_due = true;
            self.batch_pause_due = batch_ended;
        }
    }

    /// The summary of the run: one result per finished item, the i-th
    /// that of the i-th item.
    pub fn into_summary(self) -> (r: BulkOperationSummary)
        requires
            self.wf(),
        ensures
            r == self.summary_so_far(),
            summary_consistent(r),
            r.total_operations == self.finished(),
            forall|i: int|
                0 <= i < r.results@.len() ==> (#[trigger] r.results@[i]).issue_key@ == self.items()[i].0
                    && r.results@[i].operation_type == self.items()[i].1,
    {
        self.summary
    }
}

impl JiraError {
    /// Whether a bulk operation that failed with this error is retried (see `is_transient`).
    pub open spec fn is_transient_error(&self) -> bool {
        match *self {
            JiraError::HttpClientError { is_timeout, .. } => is_timeout,
            JiraError::ApiError { message, .. } => text::has_infix(message@, "timeout"@)
                || text::has_infix(message@, "rate limit"@) || text::has_infix(
                message@,
                "too many requests"@,
            ),
            _ => false,
        }
    }
}

/// `after` is `before` once the step `r` was taken (see `BulkRun::next_step`).
pub open spec fn step_taken(before: BulkRun, after: BulkRun, r: BulkStep) -> bool {
    &&& match before.retry_delay() {
        Some(d) => r == BulkStep::Wait(d) && after.retry_delay() is None
            && after.item_pause() == before.item_pause() && after.batch_pause()
            == before.batch_pause(),
        None => if before.item_pause() {
            r == BulkStep::Wait(before.rate_limit()->0) && !after.item_pause()
                && after.batch_pause() == before.batch_pause()
        } else if before.batch_pause() {
            r == BulkStep::Wait(before.rate_limit()->0) && !after.batch_pause()
                && !after.item_pause()
        } else if before.finished() < before.total() && !before.halted() {
            r == BulkStep::Attempt(before.finished() as usize) && after.item_pause()
                == before.item_pause() && after.batch_pause() == before.batch_pause()
        } else {
            r == BulkStep::Done && after.item_pause() == before.item_pause()
                && after.batch_pause() == before.batch_pause()
        }
    }
    &&& before.retry_delay() is None ==> after.retry_delay() is None
    &&& after.items() == before.items()
    &&& after.finished() == before.finished()
    &&& after.retries_spent() == before.retries_spent()
    &&& after.retry_limit() == before.retry_limit()
    &&& after.batch() == before.batch()
    &&& after.done_in_batch() == before.done_in_batch()
    &&& after.rate_limit() == before.rate_limit()
    &&& after.continues_on_error() == before.continues_on_error()
    &&& after.halted() == before.halted()
    &&& after.summary_so_far() == before.summary_so_far()
}

/// `after` is `before` once the attempt at the current item ended with
/// `outcome` (see `BulkRun::attempt_finished`): a transient error within the
/// retry limit schedules a retry; anything else finishes the item.
pub open spec fn attempt_recorded(before: BulkRun, after: BulkRun, outcome: Result<(), JiraError>) -> bool {
    &&& after.items() == before.items()
    &&& after.retry_limit() == before.retry_limit()
    &&& after.batch() == before.batch()
    &&& after.rate_limit() == before.rate_limit()
    &&& after.continues_on_error() == before.continues_on_error()
    &&& match outcome {
        Err(e) => if before.retries_spent() < before.retry_limit() && e.is_transient_error() {
            after.retries_spent() == before.retries_spent() + 1 && after.retry_delay() == Some(
                (1000 * (before.retries_spent() + 1)) as u64,
            ) && after.finished() == before.finished() && after.results() == before.results()
                && !after.item_pause() && !after.batch_pause() && !after.halted()
                && after.done_in_batch() == before.done_in_batch()
        } else {
            finished_item(before, after, false, Some(jira_error_text(e)))
        },
        Ok(()) => finished_item(before, after, true, None),
    }
}

/// How much is left of a run, counted so that every step but an attempt
/// lowers it: three units per retry left on the current item, enough per
/// unfinished item for all its retries, and one per pending pause or delay.
pub open spec fn work_left(r: BulkRun) -> int {
    (r.total() - r.finished()) * (r.retry_limit() + 2) * 3 + (r.retry_limit() - r.retries_spent())
        * 3 + (if r.retry_delay() is Some {
        1int
    } else {
        0
    }) + (if r.item_pause() {
        1int
    } else {
        0
    }) + (if r.batch_pause() {
        1int
    } else {
        0
    })
}

/// `after` is `before` with the current item finished: its result recorded
/// under the item's key and kind (with the error message of a failure),
/// the retry count reset; a failure without `continue_on_error` ends the
/// run, else with a rate limit a pause is due after the item and another
/// when the batch (or the run) ended.
pub open spec fn finished_item(before: BulkRun, after: BulkRun, success: bool, error_message: Option<Seq<char>>) -> bool {
    let batch_ended = before.done_in_batch() + 1 == before.batch() || before.finished() + 1
        == before.total();
    let halts = !success && !before.continues_on_error();
    &&& after.finished() == before.finished() + 1
    &&& after.results().len() == before.results().len() + 1
    &&& after.results().drop_last() == before.results()
    &&& after.results().last().issue_key@ == before.items()[before.finished() as int].0
    &&& after.results().last().operation_type == before.items()[before.finished() as int].1
    &&& after.results().last().success == success
    &&& text::opt_view(after.results().last().error_message) == error_message
    &&& after.retries_spent() == 0
    &&& after.retry_delay() is None
    &&& after.done_in_batch() == if before.done_in_batch() + 1 == before.batch() {
        0
    } else {
        before.done_in_batch() + 1
    }
    &&& after.halted() == halts
    &&& after.item_pause() == (before.rate_limit() is Some && !halts)
    &&& after.batch_pause() == (before.rate_limit() is Some && batch_ended && !halts)
}

/// A run always ends. Every pause or delay lowers the work left; an attempt
/// leaves it as it is and is followed by its outcome, which lowers it; and
/// the run says it is done only once every item is finished or a failure
/// ended it.
pub proof fn law_bulk_run_steps_make_progress(before: BulkRun, after: BulkRun, r: BulkStep)
    requires
        before.wf(),
        step_taken(before, after, r),
    ensures
        work_left(before) >= 0,
        r is Wait ==> work_left(after) < work_left(before),
        r is Attempt ==> work_left(after) == work_left(before),
        r is Done ==> before.finished() == before.total() || before.halted(),
{
    lemma_work_left_nonneg(before);
}

/// The outcome of an attempt lowers the work left: a retry spends one of
/// the item's retries, and a finished item gives up all that was kept for
/// it.
pub proof fn law_bulk_attempts_make_progress(before: BulkRun, after: BulkRun, outcome: Result<(), JiraError>)
    requires
        before.wf(),
        after.wf(),
        before.finished() < before.total(),
        !before.halted(),
        before.retry_delay() is None,
        !before.item_pause(),
        !before.batch_pause(),
        attempt_recorded(before, after, outcome),
    ensures
        0 <= work_left(after) < work_left(before),
{
    lemma_work_left_nonneg(after);
    let n = before.total() - before.finished();
    let k = before.retry_limit() + 2;
    if after.finished() == before.finished() + 1 {
        assert((n - 1) * k * 3 + 3 * k == n * k * 3) by (nonlinear_arith);
        assert(after.retries_spent() == 0);
        assert(work_left(after) <= (n - 1) * k * 3 + (k - 2) * 3 + 2);
    }
}

/// Without `continue_on_error`, the first item that fails for good is the
/// last one attempted: once the run has halted, it is done, whatever items
/// are left.
pub proof fn law_failure_without_continue_ends_run(
    before: BulkRun,
    mid: BulkRun,
    outcome: Result<(), JiraError>,
    after: BulkRun,
    r: BulkStep,
)
    requires
        before.wf(),
        !before.continues_on_error(),
        outcome is Err,
        attempt_recorded(before, mid, outcome),
        mid.finished() == before.finished() + 1,
        mid.wf(),
        step_taken(mid, after, r),
    ensures
        mid.halted(),
        !mid.results().last().success,
        r == BulkStep::Done,
        after.finished() == mid.finished(),
{
}

/// With `continue_on_error`, a failure never ends a run early: the run is
/// done only once every item has its result.
pub proof fn law_continuing_run_finishes_every_item(before: BulkRun, after: BulkRun, r: BulkStep)
    requires
        before.wf(),
        before.continues_on_error(),
        step_taken(before, after, r),
    ensures
        r is Done ==> before.finished() == before.total(),
{
}

proof fn lemma_work_left_nonneg(r: BulkRun)
    requires
        r.wf(),
    ensures
        work_left(r) >= 0,
{
    assert((r.total() - r.finished()) * (r.retry_limit() + 2) * 3 >= 0) by (nonlinear_arith)
        requires
            r.total() >= r.finished(),
    ;
}

} // verus!
