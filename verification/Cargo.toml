[package]
name = "kepler_core"
version = "0.1.0"
edition = "2021"
publish = false

[dependencies]
maths-rs = { version = "=1.0.0", features = ["serde"] }
serde = { version = "=1.0.229", features = ["derive"] }
