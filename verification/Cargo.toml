[package]
name = "dc_bot"
version = "0.1.0"
edition = "2021"
publish = false

[dependencies]
chrono = "=0.4.45"
clap = { version = "=4.6.7", features = ["derive"] }
reqwest = { version = "=0.12.28", default-features = false, features = ["json", "rustls-tls"] }
serde = { version = "=1.0.229", features = ["derive"] }
serde_json = "=1.0.154"
serenity = { version = "=0.12.5", features = ["collector"] }
tokio = { version = "=1.54.1", features = ["rt-multi-thread", "macros", "time", "sync", "fs"] }
toml = "0.8"
tracing = "=0.1.44"
tracing-subscriber = "=0.3.23"
