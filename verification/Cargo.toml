[package]
name = "saildb"
version = "0.1.0"
edition = "2021"
publish = false

[dependencies]
dashmap = "=5.5.3"
serde = { version = "=1.0.229", features = ["derive"] }
canary = "=0.2.5"
bincode = "=1.3.3"
tokio = { version = "=1.54.1", features = ["rt", "sync"] }
