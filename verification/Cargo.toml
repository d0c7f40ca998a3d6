[package]
name = "minuteman"
version = "0.1.0"
edition = "2021"
publish = false

[dependencies]
chrono = "=0.4.45"
image = "=0.25.10"
tokio = { version = "=1.53.2", features = ["rt", "rt-multi-thread", "time", "macros"] }
warp = { version = "=0.4.3", features = ["server"] }
reqwest = { version = "=0.12.28", default-features = false, features = ["rustls-tls"] }
futures = "=0.3.34"
serde = { version = "=1.0.229", features = ["derive"] }
serde_json = "=1.0.151"
tracing-subscriber = "=0.3.23"
pw-telegram-bot-fork = "=0.9.2"
