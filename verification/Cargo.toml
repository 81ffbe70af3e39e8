[package]
name = "hal9000"
version = "0.1.0"
edition = "2021"
publish = false

[dependencies]
anyhow = "1"
chrono = "0.4"
clap = { version = "4", features = ["derive", "env"] }
jsonwebtoken = "9"
libc = "0.2"
napi = { version = "2", features = ["napi4"] }
napi-derive = "2"
reqwest = { version = "0.12", features = ["json"] }
rmcp = { version = "*", features = ["server", "macros", "transport-io"] }
serde = { version = "1", features = ["derive"] }
serde_json = { version = "1", features = ["raw_value"] }
thiserror = "*"
tokio = { version = "1", features = ["full"] }
tracing = "0.1"
tracing-subscriber = { version = "0.3", features = ["env-filter"] }
