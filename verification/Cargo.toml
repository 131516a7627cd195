[package]
name = "rust_jira_mcp"
version = "0.1.0"
edition = "2021"
publish = false

[dependencies]
anyhow = "1"
async-trait = "0.1"
base64 = "0.22"
config = { version = "0.14", default-features = false, features = ["toml", "json", "yaml"] }
dirs = "5"
dotenvy = "0.15"
futures = "0.3"
lazy_static = "1"
moka = { version = "0.12", features = ["future"] }
notify = "6"
reqwest = { version = "0.12", features = ["json", "multipart"] }
serde = { version = "1", features = ["derive"] }
serde_json = "1"
thiserror = "2"
tokio = { version = "1", features = ["full"] }
toml = "0.8"
tracing = "0.1"
tracing-subscriber = { version = "0.3", features = ["env-filter", "json"] }
url = "2"
urlencoding = "2"
