[package]
name = "bodhicore"
version = "0.1.0"
edition = "2021"
publish = false

[dependencies]
minijinja = "2"
serde_json = "1"
serde = { version = "1", features = ["derive"] }
serde_yaml = "0.9"
regex = "1"
clap = { version = "4", features = ["derive"] }
tokio = { version = "1", features = ["full"] }
tokio-stream = "0.1"
futures-util = "0.3"
axum = "0.7"
tower-http = { version = "0.5", features = ["cors", "trace"] }
tracing = "0.1"
async-openai = "0.21"
async-trait = "0.1"
mime = "0.3"
dialoguer = "0.11"
indicatif = "0.17"
anyhow = "1"
thiserror = "1"
chrono = "0.4"
humantime = "2"
prettytable-rs = "0.10"
