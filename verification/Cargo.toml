[package]
name = "zk_config"
version = "0.1.0"
edition = "2021"
publish = false

[dependencies]
url = { version = "=2.5.8", features = ["serde"] }
anyhow = "=1.0.104"
serde = { version = "=1.0.229", features = ["derive"] }
serde_json = "=1.0.154"
serde_yaml = "=0.9.34"
xshell = "=0.2.7"
clap = { version = "=4.6.7", features = ["derive"] }
