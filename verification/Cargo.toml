[package]
name = "bearings"
version = "0.1.0"
edition = "2021"
publish = false

[dependencies]
async-trait = "=0.1.92"
serde = { version = "=1.0.229", features = ["derive"] }
serde_json = "=1.0.154"
serde_with = "=1.14.0"
tokio = { version = "=1.54.1", features = ["full"] }
uuid = { version = "=1.29.0", features = ["v5", "serde"] }
