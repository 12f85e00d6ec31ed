[package]
name = "restless_drive_monitor"
version = "1.0.0"
edition = "2021"
publish = false

[dependencies]
clap = { version = "4", features = ["derive"] }
env_logger = "0.11"
log = "0.4"
nix = { version = "0.29", features = ["user"] }
poem = "3"
poem-openapi = { version = "5", features = ["swagger-ui", "uuid"] }
reqwest = "0.12"
serde = { version = "1", features = ["derive"] }
serde_json = "1"
tokio = { version = "1", features = ["rt-multi-thread", "macros"] }
url = { version = "2", features = ["serde"] }
uuid = { version = "1", features = ["serde"] }
