[package]
name = "storebot"
version = "0.1.0"
edition = "2021"
publish = false

[dependencies]
confy = "*"
serde = { version = "*", features = ["derive"] }
