[package]
name = "webrcon"
version = "0.1.0"
edition = "2021"
publish = false

[dependencies]
serde_json = "*"
serde = { version = "*", features = ["derive"] }
serde_yaml = "*"
clap = { version = "*", features = ["derive"] }
futures = "*"
futures-channel = "*"
tokio = { version = "*", features = ["rt-multi-thread", "macros", "io-std", "io-util", "fs"] }
tokio-tungstenite = "*"
