[package]
name = "gallery_sync"
version = "0.1.0"
edition = "2021"
publish = false

[dependencies]
anyhow = "1"
chrono = "=0.4.45"
futures = "0.3"
indexmap = "=2.14.2"
once_cell = "1"
regex = "=1.13.1"
reqwest = { version = "0.11", default-features = false, features = ["rustls-tls", "json", "multipart", "cookies"] }
scraper = "=0.29.0"
serde = { version = "1", features = ["derive"] }
serde_json = "=1.0.154"
sqlx = { version = "0.7", default-features = false, features = ["sqlite", "runtime-tokio"] }
takecell = "=0.1.1"
telegraph-rs = { version = "=0.7.0", default-features = false, features = ["html", "rustls"] }
teloxide = { version = "=0.12.2", default-features = false, features = ["rustls", "throttle", "cache-me"] }
tokio = { version = "1", features = ["full"] }
tracing = "0.1"
tracing-subscriber = { version = "0.3", features = ["env-filter"] }
