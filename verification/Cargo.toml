[package]
name = "ship_ai"
version = "0.1.0"
edition = "2021"
publish = false

[dependencies]
bevy = { version = "0.17", default-features = false }
hexx = "*"
serde = { version = "1", features = ["derive"] }
