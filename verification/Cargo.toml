[package]
name = "scene_renderer"
version = "0.1.0"
edition = "2021"
publish = false

[dependencies]
bytemuck = { version = "1", features = ["derive"] }
cgmath = "=0.18.0"
image = "=0.24.9"
sdl2 = { version = "=0.37.0", features = ["raw-window-handle"] }
tokio = { version = "1", features = ["macros", "rt-multi-thread"] }
wgpu = "=0.19.4"
