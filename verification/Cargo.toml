[package]
name = "demand_control"
version = "0.1.0"
edition = "2021"
publish = false

[dependencies]
apollo-compiler = "*"
serde = { version = "1", features = ["derive"] }
schemars = "*"
