[package]
name = "couchbase_shell"
version = "0.1.0"
edition = "2021"
publish = false

[dependencies]
serde_urlencoded = "=0.7.1"
serde_json = "=1.0.154"
serde = { version = "=1.0.229", features = ["derive"] }
nu-protocol = "=0.113.1"
nu-engine = "=0.113.1"
tokio = { version = "=1.54.1", features = ["time"] }
log = "=0.4.34"
