[package]
name = "manatan_proxy"
version = "0.1.0"
edition = "2021"
publish = false

[dependencies]
axum = { version = "0.8", features = ["ws"] }
futures = "0.3"
reqwest = { version = "0.12", default-features = false, features = ["stream"] }
tokio = { version = "1", features = ["macros", "rt-multi-thread", "net"] }
tokio-tungstenite = "*"
tower-http = { version = "0.6", features = ["cors"] }
tracing = "0.1"
