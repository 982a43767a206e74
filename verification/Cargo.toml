[package]
name = "chat"
version = "0.1.0"
edition = "2021"
publish = false

[dependencies]
clap = { version = "*", features = ["derive"] }
colored = "*"
tokio = { version = "*", features = ["rt-multi-thread", "net", "io-util", "io-std", "sync", "macros"] }
