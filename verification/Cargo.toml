[package]
name = "bevy_vulkano"
version = "0.1.0"
edition = "2021"
publish = false

[dependencies]
approx = "0.5"
bevy = { version = "0.10", default-features = false }
vulkano = "0.33"
vulkano-util = "0.33"
vulkano-win = "0.33"
winit = "0.28"
