[package]
name = "restate_core"
version = "0.1.0"
edition = "2021"
publish = false

[dependencies]
ulid = "1"
xxhash-rust = { version = "0.8", features = ["xxh3"] }
tokio = { version = "1", features = ["full"] }
