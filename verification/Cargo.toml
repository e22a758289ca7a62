[package]
name = "rpc_trace"
version = "0.1.0"
edition = "2021"
publish = false

[dependencies]
futures = "0.3"
jsonrpc-core = "18"
tracing = "0.1"
