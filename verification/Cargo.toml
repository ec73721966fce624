[package]
name = "steam_bridge"
version = "0.1.0"
edition = "2021"
publish = false

[dependencies]
lazy_static = "1"
napi = { version = "2", features = ["napi6", "tokio_rt"] }
napi-derive = "2"
steamworks = "*"
tokio = { version = "1", features = ["sync"] }
