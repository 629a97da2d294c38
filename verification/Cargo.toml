[package]
name = "largejson"
version = "0.1.0"
edition = "2021"
publish = false

[dependencies]
serde = { version = "1", features = ["derive"] }
serde_json = "1"
jsonschema = { version = "*", default-features = false }
warp = "0.3"
tokio = { version = "1", features = ["rt", "macros", "sync", "net", "time"] }
tokio-util = "0.7"
futures = "0.3"
log = "0.4"
env_logger = "0.11"
clap = { version = "4", features = ["derive"] }
figment = { version = "0.10", features = ["yaml"] }
