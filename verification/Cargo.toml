[package]
name = "dependabot_merge"
version = "0.1.0"
edition = "2021"
publish = false

[dependencies]
octocrab = "=0.41.2"
tokio = { version = "=1.53.2", features = ["macros", "rt-multi-thread"] }
serde = { version = "=1.0.229", features = ["derive"] }
serde_json = "=1.0.151"
toml = "=1.1.7"
log = "=0.4.34"
simple_logger = "=5.2.0"
