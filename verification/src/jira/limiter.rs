//! The spacing of requests to the Jira API: a minimum interval between two
//! requests.
use crate::performance::tasks::{pause_for, rate_limit_pause};
use crate::performance::timing;
use vstd::prelude::*;

verus! {

/// `std::time::Instant::checked_sub`: the instant `d` before `at`, when the
/// clock can represent it. Nothing is promised of the result.
#[verifier::external_body]
fn instant_minus(at: &std::time::Instant, d: &std::time::Duration) -> Option<std::time::Instant> {
    at.checked_sub(*d)
}

/// Keeps requests at least `min_interval` apart.
pub struct RateLimiter {
    last_request: std::time::Instant,
    min_interval: std::time::Duration,
}

impl RateLimiter {
    /// The smallest time between two requests.
    pub closed spec fn interval(&self) -> std::time::Duration {
        self.min_interval
    }

    /// A limiter that lets the first request go at once: it counts the last
    /// request as one interval ago (or now, where the clock cannot go back
    /// that far).
    pub fn new(min_interval: std::time::Duration) -> (r: Self)
        ensures
            r.interval() == min_interval,
    {
        let now = timing::now();
        let last_request = match instant_minus(&now, &min_interval) {
            Some(earlier) => earlier,
            None => timing::now(),
        };
        RateLimiter { last_request, min_interval }
    }

    /// How long to wait before the next request: the rest of the interval
    /// when less than an interval has passed since the last request.
    pub fn pause_needed(&self) -> (r: Option<std::time::Duration>)
        ensures
            exists|elapsed: std::time::Duration| pause_for(elapsed, self.interval(), r),
    {
        let elapsed = timing::elapsed_since(&self.last_request);
        let r = rate_limit_pause(&elapsed, &self.min_interval);
        assert(pause_for(elapsed, self.interval(), r));
        r
    }

    /// Notes that a request goes out now.
    pub fn mark_request(&mut self)
        ensures
            final(self).interval() == old(self).interval(),
    {
        self.last_request = timing::now();
    }
}

} // verus!
