[package]
name = "quasar_telemetry"
version = "0.1.0"
edition = "2021"
publish = false

[dependencies]
crossbeam-channel = "*"
rand = "*"
rmp-serde = "*"
serde = { version = "1", features = ["derive"] }
tungstenite = "*"
ctrlc = "*"
log = "*"
env_logger = "*"
toml = "*"
