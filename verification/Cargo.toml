[package]
name = "mistralrs-core"
version = "0.1.0"
edition = "2021"
publish = false

[dependencies]
candle-core = "*"
candle-nn = "*"
clap = { version = "4", features = ["derive"] }
serde = { version = "1", features = ["derive"] }
tracing = "0.1"
