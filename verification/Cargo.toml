[package]
name = "rpc_dispatch"
version = "0.1.0"
edition = "2021"
publish = false

[dependencies]
jsonrpc-core = "10"
serde_json = "1"
serde = "1"
log = "0.4"
proc-macro2 = "0.4"
quote = "0.6"
syn = { version = "0.15", features = ["full"] }
