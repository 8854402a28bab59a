[package]
name = "person_similarity"
version = "0.1.0"
edition = "2021"
publish = false

[dependencies]
strsim = "0.11"
axum = "0.8"
tokio = { version = "1", features = ["macros", "rt-multi-thread", "net", "signal"] }
serde = { version = "1", features = ["derive"] }
