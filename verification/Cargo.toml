[package]
name = "overlay_render"
version = "0.1.0"
edition = "2021"
publish = false

[dependencies]
anyhow = "1"
tokio = { version = "1", features = ["macros", "rt-multi-thread"] }
wgpu = "0.12"
winit = "0.26"
