[package]
name = "codex-agent-loop"
version = "0.1.0"
edition = "2021"
publish = false

[dependencies]
anyhow = "1"
async-trait = "0.1"
dirs = "*"
futures = "0.3"
serde_json = "1"
tokio = { version = "1", features = ["fs", "io-std", "io-util", "macros", "rt"] }
toml = "*"
tracing = "0.1"
