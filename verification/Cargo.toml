[package]
name = "scot"
version = "0.1.0"
edition = "2021"
publish = false

[dependencies]
anyhow = "1"
async-trait = "0.1"
futures = "0.3"
parking_lot = "0.12"
serde = { version = "1", features = ["derive"] }
serde_json = "1"
tokio = { version = "1", features = ["io-util", "macros", "net", "rt", "rt-multi-thread", "sync"] }

[dev-dependencies]
bytes = "1"
tokio-serde = { version = "*", features = ["json"] }
tokio-util = { version = "0.7", features = ["codec"] }
