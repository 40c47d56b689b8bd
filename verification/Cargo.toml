[package]
name = "ftcp_server"
version = "0.1.0"
edition = "2021"
publish = false

[dependencies]
rand = "0.9"
tokio = { version = "1", features = ["sync", "net", "io-util", "fs", "rt-multi-thread", "macros"] }
tokio-util = "0.7"
