[package]
name = "eco_release"
version = "0.1.0"
edition = "2021"
publish = false

[dependencies]
serde = { version = "=1.0.229", features = ["derive"] }
serde_json = "*"
schemars = "=1.2.2"
