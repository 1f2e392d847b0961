[package]
name = "frameblock"
version = "0.1.0"
edition = "2021"
publish = false

[dependencies]
strum = { version = "*", features = ["derive"] }
