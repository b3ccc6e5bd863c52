[package]
name = "greentic-llm"
version = "0.1.0"
edition = "2021"
publish = false

[dependencies]
anyhow = "1"
async-stream = "0.3"
async-trait = "0.1"
chrono = "=0.4.45"
clap = { version = "4", features = ["derive"] }
futures-util = "0.3"
rig-bedrock = "=0.38.2"
rig-core = "=0.38.2"
serde = { version = "1", features = ["derive"] }
serde_json = "=1.0.154"
thiserror = "2"
zeroize = { version = "=1.9.1", features = ["derive"] }
