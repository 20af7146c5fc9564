[package]
name = "stellwerksim"
version = "0.1.0"
edition = "2021"
publish = false

[dependencies]
chrono = "0.4"
dashmap = "5"
serde = { version = "1", features = ["derive"] }
serde-xml-rs = "0.6"
serde_variant = "0.1"
thiserror = "1"
tokio = { version = "1", features = ["rt", "rt-multi-thread", "net", "io-util", "sync", "macros", "time"] }
