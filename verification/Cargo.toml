[package]
name = "radiant-utils"
version = "0.1.0"
edition = "2021"
publish = false

[dependencies]
num-traits = "0.2"
radiant-rs = "*"
serde = { version = "1", features = ["derive"] }
