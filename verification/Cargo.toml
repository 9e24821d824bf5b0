[package]
name = "jira_gitlab_webhook"
version = "0.1.0"
edition = "2021"
publish = false

[dependencies]
axum = "0.6"
jira_query = "*"
once_cell = "1"
reqwest = "0.11"
serde = { version = "1", features = ["derive"] }
tokio = { version = "1", features = ["rt-multi-thread", "macros"] }
tower-http = { version = "0.4", features = ["trace"] }
tracing = "0.1"
tracing-subscriber = { version = "0.3", features = ["env-filter"] }
