[package]
name = "zedc"
version = "0.1.0"
edition = "2021"
publish = false

[dependencies]
anyhow = "1"
owo-colors = "*"
tokio = { version = "1", features = ["fs", "rt", "macros", "rt-multi-thread"] }
