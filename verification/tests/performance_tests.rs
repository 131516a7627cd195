use rust_jira_mcp::performance::buffers::{MemoryTracker, OptimizedStringBuilder};
use rust_jira_mcp::performance::cache::{CacheKeyGenerator, CacheStats, CachedOperation};
use rust_jira_mcp::performance::metrics::PerformanceMetrics;
use rust_jira_mcp::performance::monitoring::{
    check_memory_usage, Alert, AlertLog, AlertSeverity, AlertType,
};
use rust_jira_mcp::performance::profiler::{BenchmarkResult, PerformanceUtils, Profiler};
use rust_jira_mcp::performance::tasks::{
    batch_ranges, batch_ready, rate_limit_pause, ConnectionCount, TaskQueue, TaskStatus,
};
use rust_jira_mcp::performance::timing::duration_from_nanos;
use std::time::{Duration, Instant};

#[test]
fn metrics_count_requests_and_outcomes() {
    let mut m = PerformanceMetrics::new();
    assert_eq!(m.reported_min_response_time_ms(), 0);
    m.record_request(Duration::from_millis(120), true);
    m.record_request(Duration::from_millis(30), false);
    m.record_request_ms(75, true);
    assert_eq!(m.total_requests, 3);
    assert_eq!(m.successful_requests, 2);
    assert_eq!(m.failed_requests, 1);
    assert_eq!(m.total_request_time_ms, 225);
    assert_eq!(m.min_request_time_ms, 30);
    assert_eq!(m.max_request_time_ms, 120);
    assert_eq!(m.reported_min_response_time_ms(), 30);
}

#[test]
fn metrics_round_sub_millisecond_durations_down() {
    let mut m = PerformanceMetrics::new();
    m.record_request(Duration::from_micros(1999), true);
    assert_eq!(m.total_request_time_ms, 1);
}

#[test]
fn metrics_cache_rate_and_memory() {
    let mut m = PerformanceMetrics::new();
    m.record_cache_hit();
    m.record_cache_hit();
    m.record_cache_miss();
    m.record_rate_limited();
    m.update_memory_usage(500);
    m.update_memory_usage(200);
    assert_eq!(m.cache_hits, 2);
    assert_eq!(m.cache_misses, 1);
    assert_eq!(m.rate_limited_requests, 1);
    assert_eq!(m.current_memory_usage_bytes, 200);
    assert_eq!(m.peak_memory_usage_bytes, 500);
}

#[test]
fn metrics_reset_clears_every_metric() {
    let mut m = PerformanceMetrics::new();
    m.record_request_ms(10, true);
    m.record_cache_hit();
    m.update_memory_usage(64);
    m.reset();
    assert_eq!(m.total_requests, 0);
    assert_eq!(m.cache_hits, 0);
    assert_eq!(m.min_request_time_ms, u64::MAX);
    assert_eq!(m.max_request_time_ms, 0);
    assert_eq!(m.current_memory_usage_bytes, 0);
    assert_eq!(m.peak_memory_usage_bytes, 0);
}

#[test]
fn metrics_counters_wrap_around() {
    let mut m = PerformanceMetrics::new();
    m.cache_hits = u64::MAX;
    m.record_cache_hit();
    assert_eq!(m.cache_hits, 0);
}

#[test]
fn string_builder_appends() {
    let mut b = OptimizedStringBuilder::new(16);
    assert!(b.is_empty());
    b.push_str("héllo");
    b.push(' ');
    b.push('w');
    assert_eq!(b.len(), 8);
    assert!(!b.is_empty());
    assert_eq!(b.build(), "héllo w");
}

#[test]
fn memory_tracker_keeps_the_peak() {
    let mut t = MemoryTracker::new();
    t.track_allocation(100);
    t.track_allocation(50);
    t.track_deallocation(120);
    t.track_allocation(10);
    assert_eq!(t.get_current_usage(), 40);
    assert_eq!(t.get_peak_usage(), 150);
    let d = MemoryTracker::default();
    assert_eq!(d.get_current_usage(), 0);
    assert_eq!(d.get_peak_usage(), 0);
}

#[test]
fn memory_tracker_deallocation_wraps() {
    let mut t = MemoryTracker::new();
    t.track_deallocation(1);
    assert_eq!(t.get_current_usage(), usize::MAX);
    assert_eq!(t.get_peak_usage(), 0);
}

#[test]
fn profiler_records_checkpoints() {
    let mut p = Profiler::new("load");
    assert!(p.elapsed_since_last_checkpoint().is_none());
    p.checkpoint("parse");
    p.checkpoint("store");
    assert!(p.elapsed_since_last_checkpoint().is_some());
    let (_, segments) = p.timing_segments();
    assert!(segments.len() == 2 || segments.len() == 3);
    assert_eq!(segments[0].0, "parse");
    assert_eq!(segments[1].0, "store");
    if segments.len() == 3 {
        assert_eq!(segments[2].0, "final");
    }
    let q = Profiler::new("empty");
    let (_, segments) = q.timing_segments();
    assert_eq!(segments.len(), 1);
    assert_eq!(segments[0].0, "total");
}

#[test]
fn measure_time_returns_the_result() {
    let (value, _) = PerformanceUtils::measure_time(|| 6 * 7);
    assert_eq!(value, 42);
}

#[test]
fn benchmark_statistics_from_samples() {
    let r = BenchmarkResult::from_samples(&vec![30, 10, 20, 40]);
    assert_eq!(r.iterations, 4);
    assert_eq!(r.total_duration, Duration::from_nanos(100));
    assert_eq!(r.average_duration, Duration::from_nanos(25));
    assert_eq!(r.min_duration, Duration::from_nanos(10));
    assert_eq!(r.max_duration, Duration::from_nanos(40));
    assert_eq!(r.median_duration, Duration::from_nanos(30));
    assert_eq!(
        r.durations,
        vec![
            Duration::from_nanos(10),
            Duration::from_nanos(20),
            Duration::from_nanos(30),
            Duration::from_nanos(40)
        ]
    );
}

#[test]
fn benchmark_runs_the_closure_each_time() {
    let r = PerformanceUtils::benchmark(5, || 1 + 1);
    assert_eq!(r.iterations, 5);
    assert_eq!(r.durations.len(), 5);
    assert!(r.min_duration <= r.median_duration && r.median_duration <= r.max_duration);
}

#[test]
fn durations_convert_through_nanoseconds() {
    let d = duration_from_nanos(3_000_000_007);
    assert_eq!(d, Duration::new(3, 7));
    assert_eq!(duration_from_nanos(0), Duration::ZERO);
}

#[test]
fn cache_keys() {
    assert_eq!(CacheKeyGenerator::api_response("issue/A-1", "x=1"), "api:issue/A-1:x=1");
    assert_eq!(CacheKeyGenerator::parsed_object("issue", "42"), "parsed:issue:42");
    assert_eq!(CacheKeyGenerator::config("jira"), "config:jira");
    assert_eq!(CacheKeyGenerator::search("project = A", -1, 50), "search:project = A:-1:50");
}

#[test]
fn cached_operation_counts_hits_and_misses() {
    let mut op = CachedOperation::new(vec![1u8], Some(PerformanceMetrics::new()));
    assert_eq!(op.note_lookup(Some(5)), Some(5));
    assert_eq!(op.note_lookup::<i32>(None), None);
    let m = op.metrics().as_ref().unwrap();
    assert_eq!(m.cache_hits, 1);
    assert_eq!(m.cache_misses, 1);
    assert_eq!(op.cache(), &vec![1u8]);
    let stats = CacheStats { api_responses_count: 1, parsed_objects_count: 2, config_cache_count: 3 };
    assert_eq!(stats.parsed_objects_count, 2);
}

#[test]
fn task_queue_tracks_statuses() {
    let mut q = TaskQueue::new();
    q.start_task("t1".to_string(), "one".to_string(), Instant::now());
    q.start_task("t2".to_string(), "two".to_string(), Instant::now());
    q.start_task("t3".to_string(), "three".to_string(), Instant::now());
    assert_eq!(q.active_count(), 3);
    q.finish_task("t1", true);
    q.finish_task("t2", false);
    q.finish_task("missing", true);
    assert_eq!(q.active_count(), 1);
    assert_eq!(q.tasks()[0].status, TaskStatus::Completed);
    assert_eq!(q.tasks()[1].status, TaskStatus::Failed);
    q.cleanup_completed_tasks();
    assert_eq!(q.tasks().len(), 1);
    assert_eq!(q.tasks()[0].id, "t3");
}

#[test]
fn tasks_are_cut_into_batches() {
    assert_eq!(batch_ranges(5, 2), vec![(0, 2, true), (2, 4, true), (4, 5, false)]);
    assert_eq!(batch_ranges(4, 2), vec![(0, 2, true), (2, 4, true)]);
    assert_eq!(batch_ranges(0, 3), vec![]);
}

#[test]
fn rate_limit_pauses_for_the_rest_of_the_interval() {
    assert_eq!(
        rate_limit_pause(&Duration::from_millis(300), &Duration::from_secs(1)),
        Some(Duration::from_millis(700))
    );
    assert_eq!(rate_limit_pause(&Duration::from_secs(2), &Duration::from_secs(1)), None);
}

#[test]
fn batch_readiness() {
    assert!(batch_ready(10, 10, &Duration::ZERO, &Duration::from_secs(5)));
    assert!(batch_ready(1, 10, &Duration::from_secs(6), &Duration::from_secs(5)));
    assert!(!batch_ready(1, 10, &Duration::from_secs(1), &Duration::from_secs(5)));
}

#[test]
fn connection_count_never_goes_negative() {
    let mut c = ConnectionCount::new();
    c.acquire();
    c.acquire();
    c.release();
    assert_eq!(c.get_connection_count(), 1);
    c.release();
    c.release();
    assert_eq!(c.get_connection_count(), 0);
}

fn alert(id: &str, severity: AlertSeverity) -> Alert {
    Alert {
        id: id.to_string(),
        alert_type: AlertType::HighResponseTime,
        message: "m".to_string(),
        severity,
        timestamp: Instant::now(),
        resolved: false,
        metadata: vec![],
    }
}

#[test]
fn alert_log_filters_resolves_and_counts() {
    let mut log = AlertLog::new();
    log.push(alert("a", AlertSeverity::Critical));
    log.push(alert("b", AlertSeverity::High));
    log.push(alert("c", AlertSeverity::High));
    assert_eq!(log.get_active_alerts().len(), 3);
    assert_eq!(log.get_alerts_by_severity(AlertSeverity::High).len(), 2);
    assert!(log.resolve_alert("b"));
    assert!(!log.resolve_alert("zzz"));
    let stats = log.get_alert_stats();
    assert_eq!(stats.total_alerts, 3);
    assert_eq!(stats.active_alerts, 2);
    assert_eq!(stats.critical_alerts, 1);
    assert_eq!(stats.high_alerts, 1);
    assert_eq!(stats.medium_alerts, 0);
    assert_eq!(stats.low_alerts, 0);
    let active = log.get_active_alerts();
    assert_eq!(active[1].id, "c");
    log.retain_flagged(&vec![true, false, false]);
    assert_eq!(log.alerts().len(), 1);
    assert_eq!(log.alerts()[0].id, "a");
}

#[test]
fn memory_alert_only_past_the_threshold() {
    assert!(check_memory_usage(100, 100, 100, Instant::now(), 0).is_none());
    let a = check_memory_usage(150, 200, 100, Instant::now(), 3).unwrap();
    assert_eq!(a.id, "high_memory_usage_3");
    assert_eq!(a.message, "Memory usage 150 bytes exceeds threshold 100 bytes");
    assert_eq!(a.severity, AlertSeverity::High);
    assert_eq!(a.alert_type, AlertType::HighMemoryUsage);
    assert!(!a.resolved);
    assert_eq!(
        a.metadata,
        vec![
            ("current_memory_bytes".to_string(), "150".to_string()),
            ("peak_memory_bytes".to_string(), "200".to_string()),
            ("threshold_bytes".to_string(), "100".to_string()),
        ]
    );
    let a = check_memory_usage(201, 201, 100, Instant::now(), 0).unwrap();
    assert_eq!(a.severity, AlertSeverity::Critical);
}

#[test]
fn total_time_lies_between_fastest_and_slowest() {
    let mut m = PerformanceMetrics::new();
    for ms in [40u64, 10, 25, 90] {
        m.record_request_ms(ms, true);
        let n = m.total_requests;
        assert!(m.min_request_time_ms * n <= m.total_request_time_ms);
        assert!(m.total_request_time_ms <= m.max_request_time_ms * n);
    }
    assert_eq!(m.total_requests, m.successful_requests + m.failed_requests);
}

#[test]
fn benchmark_average_lies_between_min_and_max() {
    let r = BenchmarkResult::from_samples(&vec![7, 100, 3, 3]);
    assert!(r.min_duration <= r.average_duration);
    assert!(r.average_duration <= r.max_duration);
    assert_eq!(r.average_duration.as_nanos(), 28);
}
