[package]
name = "status_reply"
version = "0.1.0"
edition = "2021"
publish = false

[dependencies]
rocket = { version = "0.5", default-features = false, features = ["json"] }
serde = "1"
