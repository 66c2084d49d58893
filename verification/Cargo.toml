[package]
name = "nothing"
version = "0.1.0"
edition = "2021"
publish = false

[dependencies]
askama = "0.14"
askama_web = { version = "0.14", features = ["axum-0.8"] }
axum = "0.8"
clap = { version = "4", features = ["derive"] }
futures = "0.3"
ollama-rs = { version = "0.3", features = ["stream"] }
serde = { version = "1", features = ["derive"] }
sqlx = { version = "0.8", default-features = false, features = ["sqlite", "runtime-tokio", "migrate"] }
thiserror = "2"
tokio = { version = "1", features = ["full"] }
tokio-stream = "0.1"
tracing = "0.1"
tracing-subscriber = "0.3"
url = "2"
