[package]
name = "reflections"
version = "0.1.0"
edition = "2021"
publish = false

[dependencies]
anyhow = "=1.0.104"
async-trait = "=0.1.92"
chrono = { version = "=0.4.45", features = ["serde"] }
clap = { version = "=4.6.7", default-features = false, features = ["std", "derive", "help", "usage", "error-context"] }
crossterm = { version = "=0.28.1", features = ["event-stream"] }
dirs = "=6.0.0"
futures = "=0.3.34"
open = "=5.4.5"
ratatui = { version = "=0.29.0", features = ["unstable-rendered-line-info"] }
reqwest = { version = "=0.12.28", default-features = false, features = ["json"] }
serde = { version = "=1.0.229", features = ["derive"] }
serde_json = "=1.0.154"
tokio = { version = "=1.54.1", features = ["full"] }
turso = "=0.8.3"
urlencoding = "=2.1.3"
uuid = { version = "=1.29.0", features = ["v7", "serde"] }
