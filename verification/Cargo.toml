[package]
name = "image_compressor"
version = "0.1.0"
edition = "2021"
publish = false

[dependencies]
crossbeam = "0.8"
crossbeam-queue = "0.3"
image = "0.24"
mozjpeg = "0.9"
serde = { version = "1", features = ["derive"] }
serde_json = "1"
subprocess = "0.2"
