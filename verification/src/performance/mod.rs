pub mod timing;
pub mod metrics;
pub mod buffers;
pub mod profiler;
pub mod cache;
pub mod tasks;
pub mod monitoring;
