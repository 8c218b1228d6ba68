[package]
name = "mirrorx_core"
version = "0.1.0"
edition = "2021"
publish = false

[dependencies]
ring = "0.16"
rsa = "0.5"
rand = "0.8"
dashmap = "5"
tokio = { version = "1", features = ["full"] }
tokio-util = { version = "0.7", features = ["codec"] }
bytes = "1"
futures = "0.3"
