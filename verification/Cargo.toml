[package]
name = "iota_supply"
version = "0.1.0"
edition = "2021"
publish = false

[dependencies]
anyhow = "=1.0.104"
axum = "=0.8.9"
clap = { version = "=4.6.7", features = ["derive", "env"] }
http = "=1.5.0"
serde = { version = "=1.0.229", features = ["derive"] }
thiserror = "=2.0.21"
tokio = { version = "=1.53.2", features = ["rt-multi-thread", "net", "signal", "macros"] }
tokio-util = "=0.7.19"
tower-http = { version = "=0.7.1", features = ["cors"] }
tracing = "=0.1.44"
tracing-subscriber = "=0.3.23"
