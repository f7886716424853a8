[package]
name = "conduit_core"
version = "0.1.0"
edition = "2021"
publish = false

[dependencies]
unicode-width = "*"
dirs = "*"
serde = { version = "*", features = ["derive"] }
serde_json = "*"
