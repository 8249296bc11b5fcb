[package]
name = "rps"
version = "0.1.0"
edition = "2021"
publish = false

[dependencies]
which = "*"
inquire = "*"
serde = { version = "1", features = ["derive"] }
serde_json = "1"
