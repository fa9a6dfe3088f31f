[package]
name = "tpcli"
version = "0.1.0"
edition = "2021"
publish = false

[dependencies]
base64 = "0.13"
chrono = "0.4"
clap = "2"
colored = "2"
db-key = "0.0.5"
fs_extra = "1"
futures = "0.3"
humantime = "2"
hyper = { version = "0.14", features = ["client", "http1", "http2", "tcp"] }
hyper-tls = "0.5"
leveldb = "0.8"
rusqlite = "0.25"
serde = { version = "1", features = ["derive"] }
serde_json = "1"
tempfile = "3"
tokio = { version = "1", features = ["macros", "rt-multi-thread"] }
urlencoding = "2"
