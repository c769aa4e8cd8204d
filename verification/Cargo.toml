[package]
name = "stats_db"
version = "0.1.0"
edition = "2021"
publish = false

[dependencies]
serde = { version = "=1.0.229", features = ["derive"] }
tokio = { version = "=1.53.2", features = ["macros", "rt-multi-thread"] }
warp = { version = "=0.4.3", features = ["server"] }
aws-config = "=1.12.0"
aws-sdk-dynamodb = "=1.130.0"
