[package]
name = "naviance"
version = "0.1.0"
edition = "2021"
publish = false

[dependencies]
url = "2"
uuid = { version = "1", features = ["serde"] }
chrono = { version = "0.4", features = ["serde"] }
serde = { version = "1", features = ["derive"] }
serde_json = "1"
reqwest = { version = "0.12", default-features = false, features = ["rustls-tls", "brotli", "gzip", "zstd", "deflate", "json"] }
tokio = { version = "1", features = ["rt-multi-thread", "macros"] }
futures = "0.3"
clap = { version = "4", features = ["derive", "env"] }
dotenvy = "0.15"
tracing = "0.1"
tracing-log = "0.2"
tracing-subscriber = { version = "0.3", features = ["env-filter"] }
thiserror = "1"
lazy_static = "1"
http = "1"
anyhow = "1"
