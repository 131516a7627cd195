//! A verified core for a Jira MCP server: configuration validation, secrets,
//! error classification, request planning, bulk operation bookkeeping,
//! metrics, alerting and the MCP protocol decisions.
pub mod text;
pub mod config;
pub mod encoding;
pub mod error;
pub mod types;
pub mod jira;
pub mod performance;
pub mod logging;
pub mod mcp;
pub mod tools;
pub mod catalogue;
pub mod sprints;
pub mod listings;
pub mod replies;
