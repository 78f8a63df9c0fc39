[package]
name = "forte_cubes"
version = "0.1.0"
edition = "2021"
publish = false

[dependencies]
serde = { version = "1.0.229", features = ["derive"] }
serde_json = "1.0.151"
cgmath = "0.18.0"
bytemuck = { version = "1.25.2", features = ["derive"] }
