[package]
name = "redito"
version = "0.1.0"
edition = "2021"
publish = false

[dependencies]
anyhow = "=1.0.104"
clap = { version = "=4.6.7", features = ["cargo", "string"] }
figment = { version = "=0.10.19", features = ["toml", "env"] }
redis = { version = "=0.32.7", features = ["tokio-comp", "streams", "sentinel"] }
schemars = "=1.2.3"
serde = { version = "=1.0.229", features = ["derive"] }
serde_json = "=1.0.154"
tokio = { version = "=1.54.1", features = ["macros", "rt-multi-thread"] }
