[package]
name = "cargo-wasm"
version = "0.2.0"
edition = "2021"
publish = false

[dependencies]
tiny_http = "0.12"
futures = "0.1"
tokio-core = "0.1"
rustc-serialize = "0.3"
term = "0.7"
