[package]
name = "vestige"
version = "0.1.0"
edition = "2021"
publish = false

[dependencies]
chrono = { version = "=0.4.45", features = ["serde"] }
serde = { version = "=1.0.229", features = ["derive"] }
fastembed = { version = "=5.13.4", default-features = false, features = ["hf-hub"] }
directories = "=6.0.0"
tracing = "=0.1.44"
axum = "=0.8.9"
tokio = { version = "=1.54.1", features = ["net", "rt", "sync"] }
tower = { version = "=0.5.3", features = ["limit"] }
tower-http = { version = "=0.6.11", features = ["cors"] }
