[package]
name = "tilt"
version = "0.1.0"
edition = "2021"
publish = false

[dependencies]
toml = "=1.1.7"
anyhow = "=1.0.104"
clap = { version = "=4.6.7", features = ["derive"] }
dirs = "=7.0.0"
reqwest = { version = "=0.13.5", default-features = false, features = ["json", "multipart", "query"] }
serde = { version = "=1.0.229", features = ["derive"] }
serde_json = "=1.0.151"
tokio = { version = "=1.53.2", features = ["rt-multi-thread", "macros"] }
chrono = { version = "=0.4.45", features = ["serde"] }
uuid = { version = "=1.27.0", features = ["v4", "serde"] }
