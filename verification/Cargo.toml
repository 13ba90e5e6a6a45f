[package]
name = "tilecore"
version = "0.1.0"
edition = "2021"
publish = false

[dependencies]
ron = "=0.12.2"
sdl2 = "*"
serde = { version = "=1.0.229", features = ["derive"] }
