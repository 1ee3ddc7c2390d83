[package]
name = "web_errors"
version = "0.1.0"
edition = "2021"
publish = false

[dependencies]
rocket = "0.5"
serde = { version = "1", features = ["derive"] }
serde_derive = "1"
serde_json = "1"
