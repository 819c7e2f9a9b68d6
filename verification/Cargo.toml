[package]
name = "gantry_crane"
version = "0.1.0"
edition = "2021"
publish = false

[dependencies]
anyhow = "1"
argh = "0.1"
bollard = "0.13"
env_logger = "0.10"
figment = { version = "0.10", features = ["env", "toml"] }
futures = "0.3"
log = "0.4"
paho-mqtt = "0.12"
serde = { version = "1", features = ["derive"] }
serde_json = "1"
tokio = { version = "1", features = ["macros", "rt-multi-thread", "sync", "signal", "time"] }
