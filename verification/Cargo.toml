[package]
name = "indexer_example"
version = "0.1.0"
edition = "2021"
publish = false

[dependencies]
actix = "0.13"
anyhow = "1"
clap = { version = "4", features = ["derive"] }
near-o11y = "*"
near-primitives-core = "*"
openssl-probe = "0.1"
tokio = { version = "1", features = ["sync"] }
tracing = "0.1"
