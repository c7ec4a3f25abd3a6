[package]
name = "loadgen"
version = "0.1.0"
edition = "2021"
publish = false

[dependencies]
base62 = "=2.2.6"
chrono = "=0.4.45"
color-eyre = "*"
crossterm = "=0.28.1"
rand = "=0.9.5"
ratatui = "=0.29.0"
reqwest = { version = "=0.12.28", default-features = false, features = ["http2"] }
tokio = { version = "1", features = ["rt-multi-thread"] }
