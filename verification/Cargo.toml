[package]
name = "euclid"
version = "0.19.0"
edition = "2021"
publish = false

[dependencies]
num-traits = "0.2"
serde = { version = "1", features = ["derive"] }
