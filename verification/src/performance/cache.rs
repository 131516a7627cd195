//! Cache keys, cache statistics, and the bookkeeping of a cached operation.
use crate::performance::metrics::PerformanceMetrics;
use crate::text::{append_signed_decimal, append_str, signed_decimal};
use vstd::prelude::*;

verus! {

/// Cache statistics.
pub struct CacheStats {
    pub api_responses_count: usize,
    pub parsed_objects_count: usize,
    pub config_cache_count: usize,
}

/// Cache key generator for consistent key formatting.
pub struct CacheKeyGenerator;

/// The key of a cached API response.
pub open spec fn api_response_key(endpoint: Seq<char>, params: Seq<char>) -> Seq<char> {
    "api:"@ + endpoint + ":"@ + params
}

/// The key of a cached parsed object.
pub open spec fn parsed_object_key(object_type: Seq<char>, id: Seq<char>) -> Seq<char> {
    "parsed:"@ + object_type + ":"@ + id
}

/// The key of cached configuration.
pub open spec fn config_key(config_type: Seq<char>) -> Seq<char> {
    "config:"@ + config_type
}

/// The key of cached search results.
pub open spec fn search_key(jql: Seq<char>, start_at: i32, max_results: i32) -> Seq<char> {
    "search:"@ + jql + ":"@ + signed_decimal(start_at as int) + ":"@ + signed_decimal(
        max_results as int,
    )
}

impl CacheKeyGenerator {
    /// Generate a cache key for API responses: `api:{endpoint}:{params}`.
    pub fn api_response(endpoint: &str, params: &str) -> (r: String)
        ensures
            r@ == api_response_key(endpoint@, params@),
    {
        let mut key = String::new();
        append_str(&mut key, "api:");
        append_str(&mut key, endpoint);
        append_str(&mut key, ":");
        append_str(&mut key, params);
        proof {
            reveal_strlit("api:");
            reveal_strlit(":");
        }
        key
    }

    /// Generate a cache key for parsed objects: `parsed:{object_type}:{id}`.
    pub fn parsed_object(object_type: &str, id: &str) -> (r: String)
        ensures
            r@ == parsed_object_key(object_type@, id@),
    {
        let mut key = String::new();
        append_str(&mut key, "parsed:");
        append_str(&mut key, object_type);
        append_str(&mut key, ":");
        append_str(&mut key, id);
        proof {
            reveal_strlit("parsed:");
            reveal_strlit(":");
        }
        key
    }

    /// Generate a cache key for configuration: `config:{config_type}`.
    pub fn config(config_type: &str) -> (r: String)
        ensures
            r@ == config_key(config_type@),
    {
        let mut key = String::new();
        append_str(&mut key, "config:");
        append_str(&mut key, config_type);
        proof {
            reveal_strlit("config:");
        }
        key
    }

    /// Generate a cache key for search results:
    /// `search:{jql}:{start_at}:{max_results}`.
    pub fn search(jql: &str, start_at: i32, max_results: i32) -> (r: String)
        ensures
            r@ == search_key(jql@, start_at, max_results),
    {
        let mut key = String::new();
        append_str(&mut key, "search:");
        append_str(&mut key, jql);
        append_str(&mut key, ":");
        append_signed_decimal(&mut key, start_at as i64);
        append_str(&mut key, ":");
        append_signed_decimal(&mut key, max_results as i64);
        proof {
            reveal_strlit("search:");
            reveal_strlit(":");
        }
        key
    }
}

/// The metrics after a cache lookup: a hit or a miss counted when there are
/// metrics to count in.
pub open spec fn lookup_counted(before: Option<PerformanceMetrics>, after: Option<PerformanceMetrics>, hit: bool) -> bool {
    match before {
        None => after is None,
        Some(m) => after matches Some(a) && if hit {
            a == (PerformanceMetrics { cache_hits: m.cache_hits.wrapping_add(1), ..m })
        } else {
            a == (PerformanceMetrics { cache_misses: m.cache_misses.wrapping_add(1), ..m })
        },
    }
}

/// Cache wrapper with performance metrics: the store of cached values, and
/// the metrics that count its hits and misses.
pub struct CachedOperation<S> {
    cache: S,
    metrics: Option<PerformanceMetrics>,
}

impl<S> CachedOperation<S> {
    /// The store of cached values.
    pub closed spec fn store(&self) -> S {
        self.cache
    }

    /// The metrics that count hits and misses, if any.
    pub closed spec fn counted_in(&self) -> Option<PerformanceMetrics> {
        self.metrics
    }

    /// Create a new cached operation.
    pub fn new(cache: S, metrics: Option<PerformanceMetrics>) -> (r: Self)
        ensures
            r.store() == cache,
            r.counted_in() == metrics,
    {
        CachedOperation { cache, metrics }
    }

    /// The store of cached values.
    pub fn cache(&self) -> (r: &S)
        ensures
            *r == self.store(),
    {
        &self.cache
    }

    /// The metrics that count hits and misses, if any.
    pub fn metrics(&self) -> (r: &Option<PerformanceMetrics>)
        ensures
            *r == self.counted_in(),
    {
        &self.metrics
    }

    /// Takes what the store gave back for a key: a value found there is the
    /// answer (a hit), and nothing found means the operation has to run (a
    /// miss). The hit or miss is counted in the metrics.
    pub fn note_lookup<T>(&mut self, cached: Option<T>) -> (r: Option<T>)
        ensures
            r == cached,
            final(self).store() == old(self).store(),
            lookup_counted(old(self).counted_in(), final(self).counted_in(), cached is Some),
    {
        let hit = cached.is_some();
        match &mut self.metrics {
            Some(m) => {
                if hit {
                    m.record_cache_hit();
                } else {
                    m.record_cache_miss();
                }
            },
            None => {},
        }
        cached
    }
}

} // verus!
