[package]
name = "mcp_core"
version = "0.1.0"
edition = "2021"
publish = false

[dependencies]
bytes = "1"
serde = { version = "1", features = ["derive"] }
serde_json = "1"
toml = "0.8"
tokio = { version = "1", features = ["full"] }
tokio-util = { version = "0.7", features = ["codec"] }
log = "0.4"
env_logger = "0.11"
async-trait = "0.1"
anyhow = "1"
futures = "0.3"
axum = "0.8"
tower-http = { version = "0.6", features = ["cors"] }
reqwest = { version = "0.12", default-features = false, features = ["json"] }
diesel = { version = "2", features = ["sqlite", "r2d2"] }
directories = "5"
dirs = "5"
clap = { version = "4", features = ["derive"] }
