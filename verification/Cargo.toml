[package]
name = "nanalogue_node"
version = "0.1.0"
edition = "2021"
publish = false

[dependencies]
csv = "1"
url = "2"
serde_json = "1"
serde = { version = "1", features = ["derive"] }
tokio = { version = "1", features = ["rt"] }
napi = { version = "*", features = ["tokio_rt", "serde-json"] }
napi-derive = "*"
nanalogue = "*"
rust-htslib = "*"
