[package]
name = "kmbox"
version = "0.1.0"
edition = "2021"
publish = false

[dependencies]
anyhow = "=1.0.104"
opencv = "=0.98.2"
ort = { version = "=2.0.0-rc.15", default-features = false, features = ["std", "cuda", "tensorrt", "directml"] }
rand = "=0.9.5"
tracing-subscriber = "=0.3.23"
