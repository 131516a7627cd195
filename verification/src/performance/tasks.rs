//! The bookkeeping around concurrent tasks: the task list and its statuses,
//! how a list of tasks is cut into batches, when a rate limiter pauses, when
//! a batch is ready, and the count of open connections.
use crate::performance::profiler::nanos_duration;
use crate::performance::timing;
use crate::text::str_equal;
use vstd::prelude::*;

verus! {

/// Task status.
#[derive(Debug, Clone, Copy, PartialEq, Eq, Structural)]
pub enum TaskStatus {
    Pending,
    Running,
    Completed,
    Failed,
}

/// Information about a running task.
pub struct TaskInfo {
    pub id: String,
    pub name: String,
    pub start_time: std::time::Instant,
    pub status: TaskStatus,
}

/// The statuses of a list of tasks.
pub open spec fn statuses(v: Seq<TaskInfo>) -> Seq<TaskStatus> {
    Seq::new(v.len(), |i: int| v[i].status)
}

/// How many of the statuses are `Running`.
pub open spec fn running_count(s: Seq<TaskStatus>) -> nat
    decreases s.len(),
{
    if s.len() == 0 {
        0
    } else {
        running_count(s.drop_last()) + if s.last() == TaskStatus::Running {
            1nat
        } else {
            0nat
        }
    }
}

/// A task that is still to be finished: pending or running.
pub open spec fn unfinished(t: TaskInfo) -> bool {
    t.status == TaskStatus::Pending || t.status == TaskStatus::Running
}

/// The tasks of `v` that are unfinished, in their order.
pub open spec fn unfinished_tasks(v: Seq<TaskInfo>) -> Seq<TaskInfo>
    decreases v.len(),
{
    if v.len() == 0 {
        Seq::empty()
    } else if unfinished(v.last()) {
        unfinished_tasks(v.drop_last()).push(v.last())
    } else {
        unfinished_tasks(v.drop_last())
    }
}

/// The index of the first task with the given id, if any.
pub open spec fn first_with_id(v: Seq<TaskInfo>, id: Seq<char>) -> Option<int> {
    if exists|i: int| 0 <= i < v.len() && v[i].id@ == id {
        Some(choose|i: int| 0 <= i < v.len() && v[i].id@ == id && forall|j: int| 0 <= j < i ==> v[j].id@ != id)
    } else {
        None
    }
}

/// The status a finished task gets.
pub open spec fn outcome_status(success: bool) -> TaskStatus {
    if success {
        TaskStatus::Completed
    } else {
        TaskStatus::Failed
    }
}

/// The list of tasks a task manager has started.
pub struct TaskQueue {
    tasks: Vec<TaskInfo>,
}

impl View for TaskQueue {
    type V = Seq<TaskInfo>;

    /// The tasks, in the order they were started.
    closed spec fn view(&self) -> Seq<TaskInfo> {
        self.tasks@
    }
}

impl TaskQueue {
    /// An empty list.
    pub fn new() -> (r: Self)
        ensures
            r@ == Seq::<TaskInfo>::empty(),
    {
        TaskQueue { tasks: Vec::new() }
    }

    /// The tasks, in the order they were started.
    pub fn tasks(&self) -> (r: &Vec<TaskInfo>)
        ensures
            r@ == self@,
    {
        &self.tasks
    }

    /// Adds a task that starts running now.
    pub fn start_task(&mut self, id: String, name: String, start_time: std::time::Instant)
        ensures
            final(self)@ == old(self)@.push(
                TaskInfo { id, name, start_time, status: TaskStatus::Running },
            ),
    {
        self.tasks.push(TaskInfo { id, name, start_time, status: TaskStatus::Running });
    }

    /// Marks the first task with the given id completed or failed; the list
    /// stays as it is when no task has that id.
    pub fn finish_task(&mut self, id: &str, success: bool)
        ensures
            first_with_id(old(self)@, id@) is None ==> final(self)@ == old(self)@,
            first_with_id(old(self)@, id@) matches Some(i) ==> final(self)@ == old(self)@.update(
                i,
                TaskInfo { status: outcome_status(success), ..old(self)@[i] },
            ),
    {
        let n = self.tasks.len();
        let mut i: usize = 0;
        while i < n
            invariant
                n == self.tasks@.len(),
                self.tasks@ == old(self).tasks@,
                i <= n,
                forall|j: int| 0 <= j < i ==> self.tasks@[j].id@ != id@,
            decreases n - i,
        {
            if str_equal(self.tasks[i].id.as_str(), id) {
                let ghost k = i as int;
                assert(first_with_id(old(self)@, id@) == Some(k)) by {
                    let c = choose|c: int|
                        0 <= c < old(self)@.len() && old(self)@[c].id@ == id@ && forall|j: int|
                            0 <= j < c ==> old(self)@[j].id@ != id@;
                    assert(0 <= k < old(self)@.len() && old(self)@[k].id@ == id@);
                    if c < k {
                    } else if c > k {
                    }
                }
                let mut tasks: Vec<TaskInfo> = Vec::new();
                std::mem::swap(&mut tasks, &mut self.tasks);
                let mut task = tasks.remove(i);
                task.status = if success {
                    TaskStatus::Completed
                } else {
                    TaskStatus::Failed
                };
                tasks.insert(i, task);
                assert(tasks@ =~= old(self)@.update(
                    k,
                    TaskInfo { status: outcome_status(success), ..old(self)@[k] },
                ));
                self.tasks = tasks;
                return;
            }
            i = i + 1;
        }
    }

    /// How many tasks are running.
    pub fn active_count(&self) -> (r: usize)
        ensures
            r == running_count(statuses(self@)),
    {
        let n = self.tasks.len();
        let mut count: usize = 0;
        let mut i: usize = 0;
        while i < n
            invariant
                n == self.tasks@.len(),
                i <= n,
                count == running_count(statuses(self.tasks@.subrange(0, i as int))),
                count <= i,
            decreases n - i,
        {
            assert(statuses(self.tasks@.subrange(0, i + 1)).drop_last() =~= statuses(
                self.tasks@.subrange(0, i as int),
            ));
            if self.tasks[i].status == TaskStatus::Running {
                count = count + 1;
            }
            i = i + 1;
        }
        assert(self.tasks@.subrange(0, n as int) =~= self.tasks@);
        count
    }

    /// Drops the completed and failed tasks; the pending and running ones
    /// stay, in their order.
    pub fn cleanup_completed_tasks(&mut self)
        ensures
            final(self)@ == unfinished_tasks(old(self)@),
    {
        let mut tasks: Vec<TaskInfo> = Vec::new();
        std::mem::swap(&mut tasks, &mut self.tasks);
        let ghost all = tasks@;
        let ghost total = all.len() as int;
        let mut kept: Vec<TaskInfo> = Vec::new();
        while tasks.len() > 0
            invariant
                total == all.len(),
                tasks@.len() <= total,
                tasks@ == all.subrange(total - tasks@.len(), total),
                kept@ == unfinished_tasks(all.subrange(0, total - tasks@.len())),
            decreases tasks@.len(),
        {
            let ghost done = total - tasks@.len();
            let t = tasks.remove(0);
            assert(all[done] == t);
            assert(all.subrange(0, done + 1).drop_last() =~= all.subrange(0, done));
            assert(all.subrange(0, done + 1).last() == t);
            if t.status == TaskStatus::Pending || t.status == TaskStatus::Running {
                kept.push(t);
            }
            assert(tasks@ =~= all.subrange(total - tasks@.len(), total));
        }
        assert(all.subrange(0, total) =~= all);
        self.tasks = kept;
    }
}

/// How many batches of `batch_size` it takes to hold `n` tasks.
pub open spec fn batch_count(n: nat, batch_size: nat) -> nat {
    if n % batch_size == 0 {
        n / batch_size
    } else {
        n / batch_size + 1
    }
}

/// The batches that a list of `n` tasks is cut into: consecutive ranges of
/// `batch_size` tasks (the last may be shorter), each with whether a pause
/// follows it (after every full batch).
pub open spec fn batch_plan(n: nat, batch_size: nat) -> Seq<(usize, usize, bool)> {
    Seq::new(
        batch_count(n, batch_size),
        |k: int|
            {
                let start = k * batch_size;
                let end = if start + batch_size <= n {
                    start + batch_size
                } else {
                    n as int
                };
                (start as usize, end as usize, end - start == batch_size)
            },
    )
}

proof fn lemma_batch_count(n: nat, batch_size: nat, k: int)
    requires
        batch_size > 0,
        0 <= k,
    ensures
        batch_count(n, batch_size) * batch_size >= n,
        k * batch_size < n ==> k < batch_count(n, batch_size),
        k * batch_size >= n ==> batch_count(n, batch_size) <= k,
{
    vstd::arithmetic::div_mod::lemma_fundamental_div_mod(n as int, batch_size as int);
    let q = n / batch_size;
    let r = n % batch_size;
    assert(n == batch_size * q + r);
    assert(batch_count(n, batch_size) * batch_size >= n) by (nonlinear_arith)
        requires
            n == batch_size * q + r,
            0 <= r < batch_size,
            batch_count(n, batch_size) == (if r == 0 { q } else { q + 1 }),
    ;
    assert(k * batch_size < n ==> k < batch_count(n, batch_size)) by (nonlinear_arith)
        requires
            n == batch_size * q + r,
            0 <= r < batch_size,
            batch_count(n, batch_size) == (if r == 0 { q } else { q + 1 }),
            batch_size > 0,
            k >= 0,
    ;
    assert(k * batch_size >= n ==> batch_count(n, batch_size) <= k) by (nonlinear_arith)
        requires
            n == batch_size * q + r,
            0 <= r < batch_size,
            batch_count(n, batch_size) == (if r == 0 { q } else { q + 1 }),
            batch_size > 0,
            k >= 0,
    ;
}

/// Cuts `n` tasks into batches of `batch_size`: the range of each batch, and
/// whether a pause follows it.
pub fn batch_ranges(n: usize, batch_size: usize) -> (r: Vec<(usize, usize, bool)>)
    requires
        batch_size > 0,
    ensures
        r@ == batch_plan(n as nat, batch_size as nat),
{
    let mut r: Vec<(usize, usize, bool)> = Vec::new();
    let mut start: usize = 0;
    let ghost plan = batch_plan(n as nat, batch_size as nat);
    assert(r@.len() * batch_size == 0) by (nonlinear_arith)
        requires
            r@.len() == 0,
    ;
    while start < n
        invariant
            batch_size > 0,
            plan == batch_plan(n as nat, batch_size as nat),
            start <= r@.len() * batch_size,
            start < n ==> start == r@.len() * batch_size,
            start <= n,
            r@.len() <= plan.len(),
            forall|k: int| 0 <= k < r@.len() ==> #[trigger] r@[k] == plan[k],
        decreases n - start,
    {
        let end: usize = if batch_size <= n - start {
            start + batch_size
        } else {
            n
        };
        let ghost k = r@.len() as int;
        proof {
            lemma_batch_count(n as nat, batch_size as nat, k);
        }
        r.push((start, end, end - start == batch_size));
        assert(r@[k] == plan[k]);
        start = end;
        assert((k + 1) * batch_size == k * batch_size + batch_size) by (nonlinear_arith);
    }
    proof {
        lemma_batch_count(n as nat, batch_size as nat, r@.len() as int);
    }
    assert(r@ =~= plan);
    r
}

/// How long a rate limiter pauses before a request, in nanoseconds: the rest
/// of the interval when less than an interval has passed since the last
/// request, and no pause otherwise.
pub open spec fn pause_nanos(elapsed: int, interval: int) -> Option<int> {
    if elapsed < interval {
        Some(interval - elapsed)
    } else {
        None
    }
}

/// `r` is the pause for `elapsed` time since the last request and an
/// `interval` between requests, both taken as the nanoseconds they hold.
pub open spec fn pause_for(elapsed: std::time::Duration, interval: std::time::Duration, r: Option<std::time::Duration>) -> bool {
    forall|s1: u64, k1: u32, s2: u64, k2: u32|
        k1 < 1_000_000_000 && k2 < 1_000_000_000 && elapsed == #[trigger] timing::duration_of_parts(
            s1,
            k1,
        ) && interval == #[trigger] timing::duration_of_parts(s2, k2) ==> match pause_nanos(
            timing::parts_nanos(s1, k1),
            timing::parts_nanos(s2, k2),
        ) {
            Some(p) => r == Some(nanos_duration(p)),
            None => r is None,
        }
}

/// How long to pause before the next request, given the time since the last
/// one and the interval between requests.
pub fn rate_limit_pause(elapsed: &std::time::Duration, interval: &std::time::Duration) -> (r: Option<
    std::time::Duration,
>)
    ensures
        pause_for(*elapsed, *interval, r),
        exists|e: int, i: int|
            timing::is_nanos_count(*elapsed, e) && timing::is_nanos_count(*interval, i) && match pause_nanos(
                e,
                i,
            ) {
                Some(p) => r == Some(nanos_duration(p)),
                None => r is None,
            },
{
    let e = timing::duration_as_nanos(elapsed);
    let i = timing::duration_as_nanos(interval);
    if e < i {
        Some(timing::duration_from_nanos(i - e))
    } else {
        None
    }
}

/// Whether a batch processor handles its pending items now: when a whole
/// batch is waiting, or when the batch timeout has passed since the last
/// batch.
pub fn batch_ready(
    pending: usize,
    batch_size: usize,
    since_last_batch: &std::time::Duration,
    batch_timeout: &std::time::Duration,
) -> (r: bool)
    ensures
        pending >= batch_size ==> r,
        pending < batch_size ==> exists|s: int, t: int|
            timing::is_nanos_count(*since_last_batch, s) && timing::is_nanos_count(*batch_timeout, t)
                && r == (s >= t),
        forall|s1: u64, k1: u32, s2: u64, k2: u32|
            k1 < 1_000_000_000 && k2 < 1_000_000_000 && *since_last_batch
                == #[trigger] timing::duration_of_parts(s1, k1) && *batch_timeout
                == #[trigger] timing::duration_of_parts(s2, k2) ==> r == (pending >= batch_size
                || timing::parts_nanos(s1, k1) >= timing::parts_nanos(s2, k2)),
{
    if pending >= batch_size {
        return true;
    }
    let since = timing::duration_as_nanos(since_last_batch);
    let timeout = timing::duration_as_nanos(batch_timeout);
    since >= timeout
}

/// The number of connections a pool has handed out and not yet had back.
pub struct ConnectionCount {
    active: usize,
}

impl ConnectionCount {
    /// The connections in use.
    pub closed spec fn in_use(&self) -> usize {
        self.active
    }

    /// No connection in use.
    pub fn new() -> (r: Self)
        ensures
            r.in_use() == 0,
    {
        ConnectionCount { active: 0 }
    }

    /// One more connection in use.
    pub fn acquire(&mut self)
        requires
            old(self).in_use() < usize::MAX,
        ensures
            final(self).in_use() == old(self).in_use() + 1,
    {
        self.active = self.active + 1;
    }

    /// One connection back; the count does not go below zero.
    pub fn release(&mut self)
        ensures
            final(self).in_use() == (if old(self).in_use() == 0 {
                0
            } else {
                old(self).in_use() - 1
            }),
    {
        self.active = self.active.saturating_sub(1);
    }

    /// The connections in use.
    pub fn get_connection_count(&self) -> (r: usize)
        ensures
            r == self.in_use(),
    {
        self.active
    }
}

} // verus!
