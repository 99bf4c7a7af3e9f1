[package]
name = "exalted"
version = "0.1.0"
edition = "2021"
publish = false

[dependencies]
tiny-skia = { version = "0.11", default-features = false, features = ["std", "simd"] }
cosmic-text = "0.12"
winit = "0.30"
softbuffer = "0.4"
image = { version = "0.25", default-features = false, features = ["png"] }
taffy = "0.5"
rusttype = "0.9"
