[package]
name = "n-observer"
version = "0.1.0"
edition = "2021"
publish = false

[dependencies]
tokio = { version = "1", features = ["sync", "rt", "macros"] }
futures = "0.3"
async-cffi = "*"
rs-schema-derive = "*"
