[package]
name = "shardkv"
version = "0.1.0"
edition = "2021"
publish = false

[dependencies]
tokio = { version = "1", features = ["sync", "rt-multi-thread", "macros", "net", "io-util"] }
mini-redis = "0.4"
bytes = "1"
