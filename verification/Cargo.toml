[package]
name = "hw"
version = "0.1.0"
edition = "2021"
publish = false

[dependencies]
e-utils = { version = "=0.4.20", features = ["regex"] }
sysinfo = "=0.39.6"
tokio = { version = "=1.53.2", features = ["rt", "time", "macros"] }
serde = { version = "=1.0.229", features = ["derive"] }
serde_json = "=1.0.151"
