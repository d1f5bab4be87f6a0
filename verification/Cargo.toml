[package]
name = "dawn"
version = "0.1.0"
edition = "2021"
publish = false

[dependencies]
clap = { version = "4", features = ["derive"] }
codemap = "*"
debug_types = "*"
futures = "0.3"
rustyline = "*"
serde = { version = "1", features = ["derive"] }
serde_json = "1"
smol_str = "*"
tokio = { version = "1", features = ["io-std", "io-util", "macros", "rt-multi-thread", "sync", "time"] }
tokio-util = { version = "0.7", features = ["codec"] }
tracing = "0.1"
tracing-subscriber = "0.3"
