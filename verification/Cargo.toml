[package]
name = "contender"
version = "0.1.0"
edition = "2021"
publish = false

[dependencies]
alloy = { version = "*", default-features = false, features = ["std", "rpc-types-eth"] }
async-trait = "0.1"
futures = "0.3"
jsonrpsee = { version = "*", features = ["server", "macros"] }
serde = { version = "1", features = ["derive"] }
tokio = { version = "1", features = ["sync", "time", "rt", "macros"] }
tokio-util = "*"
tracing = "0.1"
