[package]
name = "jsonrpc_client"
version = "0.1.0"
edition = "2021"
publish = false

[dependencies]
error-chain = "=0.12.4"
futures = "=0.1.31"
jsonrpc-core = "=8.0.1"
log = "=0.4.34"
serde = { version = "=1.0.229", features = ["derive"] }
serde_json = { version = "=1.0.154", features = ["float_roundtrip", "preserve_order"] }
tokio = "=0.1.22"
