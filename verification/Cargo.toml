[package]
name = "circular_queue"
version = "0.2.6"
edition = "2021"
publish = false

[dependencies]
serde = "1"

[dev-dependencies]
serde_test = "1"
serde_json = "1"
bincode = "1"
