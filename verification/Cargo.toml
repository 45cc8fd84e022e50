[package]
name = "isolate_host"
version = "0.1.0"
edition = "2021"
publish = false

[dependencies]
serde = { version = "=1.0.229", features = ["derive"] }
serde_json = "=1.0.151"
tokio = { version = "=1.53.2", features = ["sync", "rt", "time", "macros"] }
anyhow = "=1.0.104"
async-trait = "=0.1.92"
headers = "=0.4.2"
reqwest = { version = "=0.13.5", default-features = false, features = ["json"] }
tonic-build = "=0.12.3"
