[package]
name = "fc2"
version = "0.1.0"
edition = "2021"
publish = false

[dependencies]
rustc-hash = "1"
serde = { version = "1", features = ["derive"] }
serde_json = "1"
serde_with = "1"
sdl2 = "0.35"
