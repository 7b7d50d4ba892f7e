[package]
name = "llama-core"
version = "0.1.0"
edition = "2021"
publish = false

[dependencies]
either = "1"
futures = "0.3"
hyper = "0.14"
regex = "1"
reqwest = { version = "0.11", default-features = false, features = ["stream"] }
serde = { version = "1", features = ["derive"] }
serde_json = "1"
uuid = { version = "1", features = ["v4"] }
wasmedge-wasi-nn = "*"
