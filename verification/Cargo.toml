[package]
name = "user_event_store"
version = "0.1.0"
edition = "2021"
publish = false

[dependencies]
uuid = { version = "=1.27.0", features = ["serde", "v4"] }
chrono = { version = "=0.4.45", features = ["serde"] }
serde = { version = "=1.0.229", features = ["derive"] }
thiserror = "=2.0.21"
async-trait = "=0.1.92"
aws-sdk-dynamodb = "=1.130.0"
event-store-adapter-rs = { version = "=3.0.5", features = ["dynamodb"] }
