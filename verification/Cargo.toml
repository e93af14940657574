[package]
name = "dfs_client"
version = "0.1.0"
edition = "2021"
publish = false

[dependencies]
serde_json = "=1.0.151"
reqwest = { version = "=0.13.5", default-features = false, features = ["multipart", "stream", "json", "query"] }
tokio = { version = "=1.53.2", features = ["fs", "io-util"] }
tokio-util = { version = "=0.7.19", features = ["io"] }
futures-util = "=0.3.34"
async-stream = "=0.3.6"
indicatif = "=0.18.6"
anyhow = "=1.0.104"
