[package]
name = "terra"
version = "0.1.0"
edition = "2021"
publish = false

[dependencies]
uuid = { version = "=1.27.0", features = ["v4"] }
image = "=0.24.9"
vulkano = "=0.33.1"
vulkano-win = "=0.33.0"
winit = "=0.28.7"
