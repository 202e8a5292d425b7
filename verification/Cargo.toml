[package]
name = "metadata_cleaner"
version = "0.1.0"
edition = "2021"
publish = false

[dependencies]
serde = { version = "=1.0.229", features = ["derive"] }
serde_json = "=1.0.154"
chrono = { version = "=0.4.45", default-features = false, features = ["clock", "std", "serde"] }
uuid = { version = "=1.29.0", features = ["v4"] }
rusqlite = { version = "=0.31.0", features = ["bundled"] }
walkdir = "=2.5.0"
tokio = { version = "=1.54.1", features = ["sync", "rt-multi-thread", "macros", "time"] }
anyhow = "=1.0.104"
thiserror = "=1.0.69"
csv = "=1.4.0"
log = "=0.4.35"
env_logger = { version = "=0.11.11", default-features = false }
dirs = "=5.0.1"
iced = { version = "0.12", default-features = false, features = ["tokio"] }
