//! Profiling with named checkpoints, timing of closures, and benchmark
//! statistics over measured samples.
use crate::performance::timing;
use vstd::prelude::*;
use vstd::relations::*;

verus! {

/// `std::time::Instant::duration_since`: the time from `earlier` to `later`
/// (zero where `earlier` is the later one). Nothing is promised of it.
#[verifier::external_body]
fn duration_between(later: &std::time::Instant, earlier: &std::time::Instant) -> std::time::Duration {
    later.duration_since(*earlier)
}

/// `<` on `std::time::Instant`: whether `a` comes before `b`. Nothing is
/// promised of it.
#[verifier::external_body]
fn instant_before(a: &std::time::Instant, b: &std::time::Instant) -> bool {
    *a < *b
}

/// Simple profiler for measuring operation performance.
pub struct Profiler {
    name: String,
    start_time: std::time::Instant,
    checkpoints: Vec<(String, std::time::Instant)>,
}

impl Profiler {
    /// The profiler's name.
    pub closed spec fn name(&self) -> Seq<char> {
        self.name@
    }

    /// The names of the checkpoints taken so far, in order.
    pub closed spec fn checkpoint_names(&self) -> Seq<Seq<char>> {
        Seq::new(self.checkpoints@.len(), |i: int| self.checkpoints@[i].0@)
    }

    /// When the profiler started.
    pub closed spec fn started(&self) -> std::time::Instant {
        self.start_time
    }

    /// Create a new profiler with a name.
    pub fn new(name: &str) -> (r: Self)
        ensures
            r.name() == name@,
            r.checkpoint_names() == Seq::<Seq<char>>::empty(),
    {
        let r = Profiler { name: name.to_owned(), start_time: timing::now(), checkpoints: Vec::new() };
        assert(r.checkpoint_names() =~= Seq::<Seq<char>>::empty());
        r
    }

    /// Add a checkpoint with a name, at the current time.
    pub fn checkpoint(&mut self, name: &str)
        ensures
            final(self).checkpoint_names() == old(self).checkpoint_names().push(name@),
            final(self).name() == old(self).name(),
            final(self).started() == old(self).started(),
    {
        let at = timing::now();
        self.checkpoints.push((name.to_owned(), at));
        assert(self.checkpoint_names() =~= old(self).checkpoint_names().push(name@));
    }

    /// Get the elapsed time since the profiler started.
    pub fn elapsed(&self) -> std::time::Duration {
        timing::elapsed_since(&self.start_time)
    }

    /// Get the elapsed time since the last checkpoint: `None` before the
    /// first checkpoint.
    pub fn elapsed_since_last_checkpoint(&self) -> (r: Option<std::time::Duration>)
        ensures
            r is Some <==> self.checkpoint_names().len() > 0,
    {
        let n = self.checkpoints.len();
        if n == 0 {
            None
        } else {
            Some(timing::elapsed_since(&self.checkpoints[n - 1].1))
        }
    }

    /// The total elapsed time and the named segments of a timing report:
    /// a single `total` segment before any checkpoint; otherwise one segment
    /// per checkpoint, measured from the previous one (or the start), and a
    /// `final` segment for the time after the last checkpoint when the clock
    /// has moved on since.
    pub fn timing_segments(&self) -> (r: (std::time::Duration, Vec<(String, std::time::Duration)>))
        ensures
            self.checkpoint_names().len() == 0 ==> r.1@.len() == 1 && r.1@[0].0@ == "total"@,
            self.checkpoint_names().len() > 0 ==> {
                &&& self.checkpoint_names().len() <= r.1@.len() <= self.checkpoint_names().len() + 1
                &&& forall|i: int|
                    0 <= i < self.checkpoint_names().len() ==> #[trigger] r.1@[i].0@
                        == self.checkpoint_names()[i]
                &&& r.1@.len() == self.checkpoint_names().len() + 1 ==> r.1@.last().0@ == "final"@
            },
    {
        let total = self.elapsed();
        let mut segments: Vec<(String, std::time::Duration)> = Vec::new();
        let n = self.checkpoints.len();
        if n == 0 {
            segments.push(("total".to_owned(), total));
            proof {
                reveal_strlit("total");
            }
            return (total, segments);
        }
        let mut last = &self.start_time;
        let mut i: usize = 0;
        while i < n
            invariant
                n == self.checkpoints@.len(),
                i <= n,
                segments@.len() == i,
                forall|j: int| 0 <= j < i ==> #[trigger] segments@[j].0@ == self.checkpoints@[j].0@,
            decreases n - i,
        {
            let at = &self.checkpoints[i].1;
            let segment = duration_between(at, last);
            segments.push((self.checkpoints[i].0.clone(), segment));
            last = at;
            i = i + 1;
        }
        let end = timing::now();
        if instant_before(last, &end) {
            let rest = duration_between(&end, last);
            segments.push(("final".to_owned(), rest));
            proof {
                reveal_strlit("final");
            }
        }
        (total, segments)
    }
}

/// `a` is in ascending order.
pub open spec fn ascending(a: Seq<u128>) -> bool {
    sorted_by(a, |x: u128, y: u128| x <= y)
}

/// The samples in ascending order.
pub open spec fn sorted_samples(s: Seq<u128>) -> Seq<u128> {
    s.sort_by(|x: u128, y: u128| x <= y)
}

/// The sum of the samples.
pub open spec fn sample_sum(s: Seq<u128>) -> int
    decreases s.len(),
{
    if s.len() == 0 {
        0
    } else {
        sample_sum(s.drop_last()) + s.last()
    }
}

/// A number of nanoseconds, capped at the largest a `Duration` holds.
pub open spec fn capped_nanos(n: int) -> int {
    if n > timing::max_duration_nanos() {
        timing::max_duration_nanos()
    } else {
        n
    }
}

/// The `Duration` of `n` nanoseconds.
pub open spec fn nanos_duration(n: int) -> std::time::Duration {
    timing::duration_of_parts((n / 1_000_000_000) as u64, (n % 1_000_000_000) as u32)
}

/// Benchmark result containing timing statistics.
pub struct BenchmarkResult {
    pub iterations: usize,
    pub total_duration: std::time::Duration,
    pub average_duration: std::time::Duration,
    pub min_duration: std::time::Duration,
    pub max_duration: std::time::Duration,
    pub median_duration: std::time::Duration,
    pub durations: Vec<std::time::Duration>,
}

/// `r` holds the statistics of the samples `s` (in nanoseconds): the samples
/// in ascending order, their total (capped at the largest duration), the
/// total divided by the count, the smallest, the largest, and the sample in
/// the middle of the ascending order.
pub open spec fn benchmark_of(r: BenchmarkResult, s: Seq<u128>) -> bool {
    let sorted = sorted_samples(s);
    let total = capped_nanos(sample_sum(sorted));
    &&& r.iterations == s.len()
    &&& r.durations@.len() == s.len()
    &&& forall|i: int| 0 <= i < s.len() ==> #[trigger] r.durations@[i] == nanos_duration(sorted[i] as int)
    &&& r.total_duration == nanos_duration(total)
    &&& r.average_duration == nanos_duration(total / (s.len() as int))
    &&& r.min_duration == nanos_duration(sorted[0] as int)
    &&& r.max_duration == nanos_duration(sorted[s.len() - 1] as int)
    &&& r.median_duration == nanos_duration(sorted[(s.len() / 2) as int] as int)
}

/// The sample list is one a benchmark can have measured.
pub open spec fn valid_samples(s: Seq<u128>) -> bool {
    &&& 0 < s.len() <= u32::MAX
    &&& forall|i: int| 0 <= i < s.len() ==> #[trigger] s[i] <= timing::max_duration_nanos()
}

proof fn lemma_leq_total_ordering()
    ensures
        total_ordering(|x: u128, y: u128| x <= y),
{
    let leq = |x: u128, y: u128| x <= y;
    assert(reflexive(leq));
    assert(antisymmetric(leq));
    assert(transitive(leq));
    assert(strongly_connected(leq));
}

proof fn lemma_ascending_sum_bounds(a: Seq<u128>)
    requires
        a.len() > 0,
        ascending(a),
    ensures
        a.len() * a[0] <= sample_sum(a) <= a.len() * a[a.len() - 1],
    decreases a.len(),
{
    if a.len() == 1 {
        assert(sample_sum(a.drop_last()) == 0);
        assert(sample_sum(a) == a[0]);
    } else {
        let b = a.drop_last();
        assert(ascending(b));
        lemma_ascending_sum_bounds(b);
        assert(b[0] == a[0]);
        let leq = |x: u128, y: u128| x <= y;
        assert(sorted_by(a, leq));
        assert(leq(a[0], a[a.len() - 1]));
        assert(leq(a[a.len() - 2], a[a.len() - 1]));
        assert(b[b.len() - 1] == a[a.len() - 2]);
        let n = b.len() as int;
        let lo = a[0] as int;
        let hi = a[a.len() - 1] as int;
        let top = b[b.len() - 1] as int;
        assert(n * top <= n * hi) by (nonlinear_arith)
            requires
                top <= hi,
                n >= 0,
        ;
        assert(n * lo + lo == (n + 1) * lo) by (nonlinear_arith);
        assert(n * hi + hi == (n + 1) * hi) by (nonlinear_arith);
        assert(sample_sum(a) == sample_sum(b) + a[a.len() - 1]);
        assert(a.len() == n + 1);
        assert((n + 1) * lo <= sample_sum(a) <= (n + 1) * hi);
    }
}

/// The average of a benchmark lies between its fastest and its slowest
/// sample (all in nanoseconds), as long as the total did not have to be
/// capped at the largest duration.
pub proof fn law_benchmark_average_between_min_and_max(s: Seq<u128>)
    requires
        s.len() > 0,
        sample_sum(sorted_samples(s)) <= timing::max_duration_nanos(),
    ensures
        sorted_samples(s).len() == s.len(),
        sorted_samples(s)[0] <= capped_nanos(sample_sum(sorted_samples(s))) / (s.len() as int),
        capped_nanos(sample_sum(sorted_samples(s))) / (s.len() as int) <= sorted_samples(s)[s.len() - 1],
{
    broadcast use vstd::seq_lib::group_to_multiset_ensures;

    lemma_leq_total_ordering();
    s.lemma_sort_by_ensures(|x: u128, y: u128| x <= y);
    let sorted = sorted_samples(s);
    assert(sorted.to_multiset().len() == s.to_multiset().len());
    lemma_ascending_sum_bounds(sorted);
    let n = s.len() as int;
    let total = sample_sum(sorted);
    let lo = sorted[0] as int;
    let hi = sorted[n - 1] as int;
    assert(lo <= total / n) by (nonlinear_arith)
        requires
            n > 0,
            n * lo <= total,
    ;
    assert(total / n <= hi) by (nonlinear_arith)
        requires
            n > 0,
            total <= n * hi,
    ;
}

/// The samples sorted into ascending order (by insertion).
fn sort_samples(v: &Vec<u128>) -> (out: Vec<u128>)
    ensures
        out@ == sorted_samples(v@),
{
    broadcast use vstd::seq_lib::group_to_multiset_ensures;

    let mut out: Vec<u128> = Vec::new();
    let n = v.len();
    let mut i: usize = 0;
    while i < n
        invariant
            n == v@.len(),
            i <= n,
            out@.to_multiset() == v@.subrange(0, i as int).to_multiset(),
            ascending(out@),
        decreases n - i,
    {
        let x = v[i];
        let mut pos: usize = 0;
        while pos < out.len() && out[pos] <= x
            invariant
                pos <= out@.len(),
                forall|j: int| 0 <= j < pos ==> out@[j] <= x,
            decreases out@.len() - pos,
        {
            pos = pos + 1;
        }
        let ghost before = out@;
        out.insert(pos, x);
        assert(out@ == before.insert(pos as int, x));
        assert forall|a: int, b: int| 0 <= a < b < out@.len() implies (|x: u128, y: u128| x <= y)(
            out@[a],
            out@[b],
        ) by {
            assert(ascending(before));
            if b < pos {
                assert(out@[a] == before[a] && out@[b] == before[b]);
                assert((|x: u128, y: u128| x <= y)(before[a], before[b]));
            } else if b == pos {
                assert(out@[a] == before[a]);
            } else if a == pos {
                assert(out@[b] == before[b - 1]);
                assert(pos < before.len());
                assert(before[pos as int] > x);
                if pos < b - 1 {
                    assert((|x: u128, y: u128| x <= y)(before[pos as int], before[b - 1]));
                }
            } else if a < pos {
                assert(out@[a] == before[a] && out@[b] == before[b - 1]);
                assert((|x: u128, y: u128| x <= y)(before[a], before[b - 1]));
            } else {
                assert(out@[a] == before[a - 1] && out@[b] == before[b - 1]);
                assert((|x: u128, y: u128| x <= y)(before[a - 1], before[b - 1]));
            }
        }
        assert(v@.subrange(0, i + 1) == v@.subrange(0, i as int).push(x));
        proof {
            vstd::seq_lib::to_multiset_insert(before, pos as int, x);
            vstd::seq_lib::to_multiset_build(v@.subrange(0, i as int), x);
        }
        i = i + 1;
    }
    assert(v@.subrange(0, n as int) == v@);
    proof {
        lemma_leq_total_ordering();
        v@.lemma_sort_by_ensures(|x: u128, y: u128| x <= y);
        vstd::seq_lib::lemma_sorted_unique(out@, sorted_samples(v@), |x: u128, y: u128| x <= y);
    }
    out
}

/// Performance measurement utilities.
pub struct PerformanceUtils;

impl PerformanceUtils {
    /// Measure the execution time of a closure: its result, and how long the
    /// call took.
    pub fn measure_time<F, T>(f: F) -> (r: (T, std::time::Duration)) where F: FnOnce() -> T
        requires
            f.requires(()),
        ensures
            f.ensures((), r.0),
    {
        let start = timing::now();
        let result = f();
        let duration = timing::elapsed_since(&start);
        (result, duration)
    }

    /// Benchmark a function `iterations` times: the statistics of the
    /// measured durations.
    pub fn benchmark<F, T>(iterations: usize, f: F) -> (r: BenchmarkResult) where F: Fn() -> T
        requires
            0 < iterations <= u32::MAX,
            f.requires(()),
        ensures
            r.iterations == iterations,
            exists|s: Seq<u128>| s.len() == iterations && valid_samples(s) && benchmark_of(r, s),
    {
        let mut samples: Vec<u128> = Vec::new();
        let mut i: usize = 0;
        while i < iterations
            invariant
                i <= iterations,
                samples@.len() == i,
                f.requires(()),
                forall|j: int| 0 <= j < i ==> #[trigger] samples@[j] <= timing::max_duration_nanos(),
            decreases iterations - i,
        {
            let start = timing::now();
            let _ = f();
            let duration = timing::elapsed_since(&start);
            samples.push(timing::duration_as_nanos(&duration));
            i = i + 1;
        }
        BenchmarkResult::from_samples(&samples)
    }
}

impl BenchmarkResult {
    /// The statistics of measured samples, given in nanoseconds.
    pub fn from_samples(samples: &Vec<u128>) -> (r: BenchmarkResult)
        requires
            valid_samples(samples@),
        ensures
            benchmark_of(r, samples@),
    {
        let sorted = sort_samples(samples);
        let n = sorted.len();
        proof {
            lemma_leq_total_ordering();
            samples@.lemma_sort_by_ensures(|x: u128, y: u128| x <= y);
            assert(sorted@.len() == samples@.len()) by {
                vstd::seq_lib::to_multiset_len(sorted@);
                vstd::seq_lib::to_multiset_len(samples@);
            }
            assert forall|j: int| 0 <= j < n implies #[trigger] sorted@[j] <= timing::max_duration_nanos() by {
                broadcast use vstd::seq_lib::group_to_multiset_ensures;
                assert(sorted@.to_multiset().count(sorted@[j]) > 0);
                assert(samples@.contains(sorted@[j]));
            }
        }
        let max_nanos: u128 = 18_446_744_073_709_551_615u128 * 1_000_000_000 + 999_999_999;
        let mut total: u128 = 0;
        let mut durations: Vec<std::time::Duration> = Vec::new();
        let mut i: usize = 0;
        while i < n
            invariant
                n == sorted@.len(),
                n == samples@.len(),
                i <= n,
                max_nanos == timing::max_duration_nanos(),
                total == capped_nanos(sample_sum(sorted@.subrange(0, i as int))),
                durations@.len() == i,
                forall|j: int| 0 <= j < n ==> #[trigger] sorted@[j] <= timing::max_duration_nanos(),
                forall|j: int| 0 <= j < i ==> #[trigger] durations@[j] == nanos_duration(sorted@[j] as int),
            decreases n - i,
        {
            let x = sorted[i];
            assert(sorted@.subrange(0, i + 1).drop_last() == sorted@.subrange(0, i as int));
            assert(sample_sum(sorted@.subrange(0, i as int)) >= 0) by {
                lemma_sum_nonneg(sorted@.subrange(0, i as int));
            }
            if total > max_nanos - x {
                total = max_nanos;
            } else {
                total = total + x;
            }
            durations.push(timing::duration_from_nanos(x));
            i = i + 1;
        }
        assert(sorted@.subrange(0, n as int) == sorted@);
        let average: u128 = total / (n as u128);
        BenchmarkResult {
            iterations: n,
            total_duration: timing::duration_from_nanos(total),
            average_duration: timing::duration_from_nanos(average),
            min_duration: timing::duration_from_nanos(sorted[0]),
            max_duration: timing::duration_from_nanos(sorted[n - 1]),
            median_duration: timing::duration_from_nanos(sorted[n / 2]),
            durations,
        }
    }
}

proof fn lemma_sum_nonneg(s: Seq<u128>)
    ensures
        sample_sum(s) >= 0,
    decreases s.len(),
{
    if s.len() > 0 {
        lemma_sum_nonneg(s.drop_last());
    }
}

} // verus!
