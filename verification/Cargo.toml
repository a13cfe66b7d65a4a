[package]
name = "ckb-analyzer"
version = "0.1.0"
edition = "2021"
publish = false

[dependencies]
chrono = "=0.4.45"
ckb-app-config = "=1.3.1"
ckb-async-runtime = "=1.1.1"
ckb-jsonrpc-types = "=1.2.1"
ckb-network = "=1.2.4"
ckb-types = "=1.1.4"
crossbeam = "=0.8.5"
jsonrpc-core = "=18.0.0"
jsonrpc-core-client = { version = "=18.0.0", default-features = false }
jsonrpc-server-utils = "=18.0.0"
log = "=0.4.34"
serde = { version = "=1.0.229", features = ["derive"] }
tokio = { version = "=1.54.1", features = ["rt", "time", "net"] }
tokio-util = "=0.7.12"
