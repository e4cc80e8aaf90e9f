[package]
name = "stratum_service"
version = "0.1.0"
edition = "2021"
publish = false

[dependencies]
yaml-rust = "*"
tokio = { version = "*", features = ["rt-multi-thread", "net", "io-util", "time", "macros", "sync"] }
anyhow = "*"
