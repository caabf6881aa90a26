[package]
name = "icepick"
version = "0.1.0"
edition = "2021"
publish = false

[dependencies]
anyhow = "1"
chrono = "0.4"
dashmap = "6"
futures = "0.3"
mime = "0.3"
r2d2 = "0.8"
r2d2_sqlite = "0.23"
reqwest = { version = "0.12", default-features = false }
rusqlite = { version = "0.30", features = ["bundled"] }
scraper = "0.20"
thiserror = "1"
tokio = { version = "1", features = ["full"] }
tokio-rusqlite = "0.5"
tracing = "0.1"
trust-dns-resolver = "0.23"
url = "2"
uuid = { version = "1", features = ["v7"] }
xxhash-rust = { version = "0.8", features = ["xxh3"] }
zstd = "0.13"
