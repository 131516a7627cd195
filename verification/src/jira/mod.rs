pub mod bulk;
pub mod cloning;
pub mod requests;
pub mod limiter;
