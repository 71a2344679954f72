[package]
name = "degenerate"
version = "0.1.0"
edition = "2021"
publish = false

[dependencies]
alloy-primitives = { version = "1", default-features = false, features = ["std"] }
anyhow = "1"
chrono = "0.4"
dotenvy = "0.15"
parking_lot = "0.12"
prost = "0.14"
qdrant-client = { version = "1", default-features = false, features = ["serde"] }
rust_decimal = { version = "1", default-features = false, features = ["std"] }
rustls = { version = "0.23", default-features = false, features = ["aws_lc_rs", "std"] }
serde = { version = "1", features = ["derive"] }
serde_json = "1"
thiserror = "2"
tokio = { version = "1", features = ["full"] }
tokio-stream = "0.1"
tokio-util = "0.7"
tonic = "0.14"
tonic-prost = "0.14"
tracing = "0.1"
tracing-subscriber = { version = "0.3", features = ["env-filter"] }
uuid = { version = "1", features = ["v4", "v5"] }
