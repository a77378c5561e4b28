[package]
name = "wavectl"
version = "0.1.0"
edition = "2021"
publish = false

[dependencies]
anyhow = "*"
nusb = "*"
serde = { version = "*", features = ["derive"] }
serde_json = "*"
tokio = { version = "*", features = ["io-util", "io-std", "rt-multi-thread", "macros", "time"] }
