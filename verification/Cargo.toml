[package]
name = "smooth_scroll"
version = "0.1.0"
edition = "2021"
publish = false

[dependencies]
serde = { version = "1", features = ["derive"] }
core-foundation = "0.10"
