[package]
name = "suisai"
version = "0.1.0"
edition = "2021"
publish = false

[dependencies]
base64 = "0.21"
serde = { version = "1", features = ["derive"] }
serde_json = "1"
axum = { version = "0.7", default-features = false, features = ["json", "tokio", "http1"] }
surrealdb = { version = "1", default-features = false, features = ["protocol-ws"] }
tokio = { version = "1", features = ["rt-multi-thread", "net"] }
