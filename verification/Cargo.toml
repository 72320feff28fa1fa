[package]
name = "saveload"
version = "0.1.0"
edition = "2021"
publish = false

[dependencies]
serde = { version = "1", features = ["derive"] }
shred = { version = "*", default-features = false }
