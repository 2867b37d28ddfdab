[package]
name = "client"
version = "0.1.0"
edition = "2021"
publish = false

[dependencies]
serde = { version = "=1.0.229", features = ["derive"] }
serde_json = "=1.0.154"
serde_urlencoded = "=0.7.1"
scraper = "=0.29.0"
reqwest = { version = "=0.12.28", default-features = false, features = ["json", "multipart", "cookies", "rustls-tls", "charset"] }
reqwest-oauth1 = "=0.3.0"
tokio = { version = "=1.54.1", features = ["macros", "rt-multi-thread", "sync", "net"] }
axum = "=0.7.9"
tower-http = { version = "=0.7.1", features = ["cors"] }
eyre = "=0.6.14"
log = "=0.4.35"
env_logger = "=0.11.11"
