[package]
name = "acp_harness"
version = "0.1.0"
edition = "2021"
publish = false

[dependencies]
agent-client-protocol = "0.4"
command-group = { version = "5", features = ["with-tokio"] }
futures = "0.3"
regex = "1"
serde = { version = "1", features = ["derive"] }
serde_json = "1"
tokio = { version = "1", features = ["io-util", "macros", "process", "rt", "rt-multi-thread", "sync"] }
tokio-util = { version = "0.7", features = ["compat", "io"] }
tracing = "0.1"
uuid = { version = "1", features = ["v4"] }
