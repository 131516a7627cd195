pub mod jira;
pub mod manager;
pub mod secrets;
pub mod validation;
