[package]
name = "ledger_indexer"
version = "0.1.0"
edition = "2021"
publish = false

[dependencies]
anyhow = "*"
axum = "*"
diesel = { version = "*", features = ["postgres"] }
serde_json = "*"
tokio = { version = "*", features = ["full"] }
tower = "*"
tower-http = { version = "*", features = ["cors", "timeout"] }
