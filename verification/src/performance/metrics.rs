//! Counters of requests, timings, cache use, rate limiting and memory.
use crate::performance::timing;
use vstd::prelude::*;

verus! {

/// Performance metrics collector for monitoring system performance.
///
/// Counters wrap around on overflow, as atomic additions do.
pub struct PerformanceMetrics {
    pub total_requests: u64,
    pub successful_requests: u64,
    pub failed_requests: u64,
    pub total_request_time_ms: u64,
    /// `u64::MAX` until a request has been recorded.
    pub min_request_time_ms: u64,
    pub max_request_time_ms: u64,
    pub current_memory_usage_bytes: usize,
    pub peak_memory_usage_bytes: usize,
    pub cache_hits: u64,
    pub cache_misses: u64,
    pub rate_limited_requests: u64,
    /// When the collector was created.
    pub start_time: std::time::Instant,
}

/// The request counters and timings hold their starting values.
pub open spec fn request_counters_cleared(m: PerformanceMetrics) -> bool {
    &&& m.total_requests == 0
    &&& m.successful_requests == 0
    &&& m.failed_requests == 0
    &&& m.total_request_time_ms == 0
    &&& m.min_request_time_ms == u64::MAX
    &&& m.max_request_time_ms == 0
    &&& m.cache_hits == 0
    &&& m.cache_misses == 0
    &&& m.rate_limited_requests == 0
}

/// `after` is `before` with one request of `ms` milliseconds recorded.
pub open spec fn request_recorded(
    before: PerformanceMetrics,
    after: PerformanceMetrics,
    ms: u64,
    success: bool,
) -> bool {
    &&& after.total_requests == before.total_requests.wrapping_add(1)
    &&& after.successful_requests == (if success {
        before.successful_requests.wrapping_add(1)
    } else {
        before.successful_requests
    })
    &&& after.failed_requests == (if success {
        before.failed_requests
    } else {
        before.failed_requests.wrapping_add(1)
    })
    &&& after.total_request_time_ms == before.total_request_time_ms.wrapping_add(ms)
    &&& after.min_request_time_ms == (if ms < before.min_request_time_ms {
        ms
    } else {
        before.min_request_time_ms
    })
    &&& after.max_request_time_ms == (if ms > before.max_request_time_ms {
        ms
    } else {
        before.max_request_time_ms
    })
    &&& after.current_memory_usage_bytes == before.current_memory_usage_bytes
    &&& after.peak_memory_usage_bytes == before.peak_memory_usage_bytes
    &&& after.cache_hits == before.cache_hits
    &&& after.cache_misses == before.cache_misses
    &&& after.rate_limited_requests == before.rate_limited_requests
    &&& after.start_time == before.start_time
}

/// The milliseconds that a duration of `ns` nanoseconds counts for: whole
/// milliseconds, or `u64::MAX` where that does not fit.
pub open spec fn millis_of_nanos(ns: int) -> u64 {
    if ns / 1_000_000 > u64::MAX {
        u64::MAX
    } else {
        (ns / 1_000_000) as u64
    }
}

impl PerformanceMetrics {
    /// Create a new performance metrics collector.
    pub fn new() -> (r: Self)
        ensures
            request_counters_cleared(r),
            times_bracketed(r),
            r.current_memory_usage_bytes == 0,
            r.peak_memory_usage_bytes == 0,
    {
        PerformanceMetrics {
            total_requests: 0,
            successful_requests: 0,
            failed_requests: 0,
            total_request_time_ms: 0,
            min_request_time_ms: u64::MAX,
            max_request_time_ms: 0,
            current_memory_usage_bytes: 0,
            peak_memory_usage_bytes: 0,
            cache_hits: 0,
            cache_misses: 0,
            rate_limited_requests: 0,
            start_time: timing::now(),
        }
    }

    /// Record a completed request that took `duration_ms` milliseconds.
    pub fn record_request_ms(&mut self, duration_ms: u64, success: bool)
        ensures
            request_recorded(*old(self), *final(self), duration_ms, success),
    {
        self.total_requests = self.total_requests.wrapping_add(1);
        if success {
            self.successful_requests = self.successful_requests.wrapping_add(1);
        } else {
            self.failed_requests = self.failed_requests.wrapping_add(1);
        }
        self.total_request_time_ms = self.total_request_time_ms.wrapping_add(duration_ms);
        if duration_ms < self.min_request_time_ms {
            self.min_request_time_ms = duration_ms;
        }
        if duration_ms > self.max_request_time_ms {
            self.max_request_time_ms = duration_ms;
        }
    }

    /// Record a completed request: its duration counts in whole milliseconds,
    /// `u64::MAX` where that does not fit.
    pub fn record_request(&mut self, duration: std::time::Duration, success: bool)
        ensures
            exists|s: u64, k: u32|
                k < 1_000_000_000 && duration == #[trigger] timing::duration_of_parts(s, k)
                    && request_recorded(
                    *old(self),
                    *final(self),
                    millis_of_nanos(timing::parts_nanos(s, k)),
                    success,
                ),
            forall|s: u64, k: u32|
                k < 1_000_000_000 && duration == #[trigger] timing::duration_of_parts(s, k)
                    ==> request_recorded(
                    *old(self),
                    *final(self),
                    millis_of_nanos(timing::parts_nanos(s, k)),
                    success,
                ),
    {
        let ns = timing::duration_as_nanos(&duration);
        let whole_ms: u128 = ns / 1_000_000;
        let ms: u64 = if whole_ms > u64::MAX as u128 {
            u64::MAX
        } else {
            whole_ms as u64
        };
        self.record_request_ms(ms, success);
        assert(ms == millis_of_nanos(ns as int));
    }

    /// Record a cache hit.
    pub fn record_cache_hit(&mut self)
        ensures
            final(self).cache_hits == old(self).cache_hits.wrapping_add(1),
            *final(self) == (PerformanceMetrics { cache_hits: final(self).cache_hits, ..*old(self) }),
    {
        self.cache_hits = self.cache_hits.wrapping_add(1);
    }

    /// Record a cache miss.
    pub fn record_cache_miss(&mut self)
        ensures
            final(self).cache_misses == old(self).cache_misses.wrapping_add(1),
            *final(self) == (PerformanceMetrics {
                cache_misses: final(self).cache_misses,
                ..*old(self)
            }),
    {
        self.cache_misses = self.cache_misses.wrapping_add(1);
    }

    /// Record a rate limited request.
    pub fn record_rate_limited(&mut self)
        ensures
            final(self).rate_limited_requests == old(self).rate_limited_requests.wrapping_add(1),
            *final(self) == (PerformanceMetrics {
                rate_limited_requests: final(self).rate_limited_requests,
                ..*old(self)
            }),
    {
        self.rate_limited_requests = self.rate_limited_requests.wrapping_add(1);
    }

    /// Update memory usage; the peak keeps the largest usage seen.
    pub fn update_memory_usage(&mut self, current_bytes: usize)
        ensures
            final(self).current_memory_usage_bytes == current_bytes,
            final(self).peak_memory_usage_bytes == (if current_bytes
                > old(self).peak_memory_usage_bytes {
                current_bytes
            } else {
                old(self).peak_memory_usage_bytes
            }),
            *final(self) == (PerformanceMetrics {
                current_memory_usage_bytes: final(self).current_memory_usage_bytes,
                peak_memory_usage_bytes: final(self).peak_memory_usage_bytes,
                ..*old(self)
            }),
    {
        self.current_memory_usage_bytes = current_bytes;
        if current_bytes > self.peak_memory_usage_bytes {
            self.peak_memory_usage_bytes = current_bytes;
        }
    }

    /// The fastest response time to report: 0 while no request is recorded.
    pub fn reported_min_response_time_ms(&self) -> (r: u64)
        ensures
            r == (if self.min_request_time_ms == u64::MAX {
                0
            } else {
                self.min_request_time_ms
            }),
    {
        if self.min_request_time_ms == u64::MAX {
            0
        } else {
            self.min_request_time_ms
        }
    }

    /// Reset all metrics: the request, cache and rate counters and the
    /// memory figures; the start time stays.
    pub fn reset(&mut self)
        ensures
            request_counters_cleared(*final(self)),
            times_bracketed(*final(self)),
            final(self).current_memory_usage_bytes == 0,
            final(self).peak_memory_usage_bytes == 0,
            final(self).start_time == old(self).start_time,
    {
        self.current_memory_usage_bytes = 0;
        self.peak_memory_usage_bytes = 0;
        self.total_requests = 0;
        self.successful_requests = 0;
        self.failed_requests = 0;
        self.total_request_time_ms = 0;
        self.min_request_time_ms = u64::MAX;
        self.max_request_time_ms = 0;
        self.cache_hits = 0;
        self.cache_misses = 0;
        self.rate_limited_requests = 0;
    }
}

/// Every recorded request is counted once, as a success or as a failure:
/// while the counters have not wrapped, the total stays the sum of the two.
pub proof fn law_requests_split_into_outcomes(
    before: PerformanceMetrics,
    after: PerformanceMetrics,
    ms: u64,
    success: bool,
)
    requires
        before.total_requests == before.successful_requests + before.failed_requests,
        before.total_requests < u64::MAX,
        request_recorded(before, after, ms, success),
    ensures
        after.total_requests == after.successful_requests + after.failed_requests,
{
}

/// Once a request has been recorded, the fastest time is at most the slowest,
/// and both bound the time of the last request.
pub proof fn law_min_max_bracket_request(
    before: PerformanceMetrics,
    after: PerformanceMetrics,
    ms: u64,
    success: bool,
)
    requires
        before.min_request_time_ms == u64::MAX || before.min_request_time_ms
            <= before.max_request_time_ms,
        request_recorded(before, after, ms, success),
    ensures
        after.min_request_time_ms <= ms <= after.max_request_time_ms,
        after.min_request_time_ms <= after.max_request_time_ms,
{
}

/// Resetting clears the request counters whatever was recorded before, and
/// recording a request on cleared counters gives that request's figures.
pub proof fn law_reset_then_record(
    cleared: PerformanceMetrics,
    after: PerformanceMetrics,
    ms: u64,
    success: bool,
)
    requires
        request_counters_cleared(cleared),
        request_recorded(cleared, after, ms, success),
    ensures
        after.total_requests == 1,
        after.successful_requests == (if success { 1int } else { 0int }),
        after.failed_requests == (if success { 0int } else { 1int }),
        after.total_request_time_ms == ms,
        after.max_request_time_ms == ms,
        ms < u64::MAX ==> after.min_request_time_ms == ms,
{
}

/// The request times bracket the average: with `n` requests recorded and no
/// counter wrapped, the total time lies between `n` times the fastest and
/// `n` times the slowest request.
pub open spec fn times_bracketed(m: PerformanceMetrics) -> bool {
    if m.total_requests == 0 {
        m.total_request_time_ms == 0 && m.max_request_time_ms == 0
    } else {
        m.min_request_time_ms * m.total_requests <= m.total_request_time_ms <= m.max_request_time_ms
            * m.total_requests
    }
}

/// Recording a request keeps the total time between the fastest and the
/// slowest times the number of requests, as long as no counter wraps.
pub proof fn law_average_between_min_and_max(
    before: PerformanceMetrics,
    after: PerformanceMetrics,
    ms: u64,
    success: bool,
)
    requires
        times_bracketed(before),
        before.total_requests < u64::MAX,
        before.total_request_time_ms + ms <= u64::MAX,
        request_recorded(before, after, ms, success),
    ensures
        times_bracketed(after),
{
    let n = before.total_requests as int;
    let t = before.total_request_time_ms as int;
    let lo = before.min_request_time_ms as int;
    let hi = before.max_request_time_ms as int;
    let lo2 = after.min_request_time_ms as int;
    let hi2 = after.max_request_time_ms as int;
    assert(after.total_requests == n + 1);
    assert(after.total_request_time_ms == t + ms);
    if n == 0 {
        assert(lo2 <= ms && hi2 == ms);
        assert(lo2 * (n + 1) <= t + ms <= hi2 * (n + 1)) by (nonlinear_arith)
            requires
                n == 0,
                t == 0,
                lo2 <= ms,
                hi2 == ms,
        ;
    } else {
        assert(lo2 <= lo && lo2 <= ms && hi2 >= hi && hi2 >= ms);
        assert(lo2 * (n + 1) <= t + ms <= hi2 * (n + 1)) by (nonlinear_arith)
            requires
                n > 0,
                lo * n <= t <= hi * n,
                0 <= lo2 <= lo,
                lo2 <= ms,
                hi2 >= hi,
                hi2 >= ms,
        ;
    }
}

impl Default for PerformanceMetrics {
    fn default() -> (r: Self)
        ensures
            request_counters_cleared(r),
            times_bracketed(r),
            r.current_memory_usage_bytes == 0,
            r.peak_memory_usage_bytes == 0,
    {
        Self::new()
    }
}

} // verus!
