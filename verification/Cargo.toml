[package]
name = "fuji-ptp-core"
version = "0.1.0"
edition = "2021"
publish = false

[dependencies]
serde = { version = "1", features = ["derive"] }
serde_json = "1"
jni = "0.21"
rusb = "0.9"
