[package]
name = "image_processing"
version = "0.1.0"
edition = "2021"
publish = false

[dependencies]
image = "0.24"
axum = "0.6"
tokio = { version = "1", features = ["full"] }
bytes = "1"
rand = { version = "0.8", features = ["small_rng"] }
