[package]
name = "cube_renderer"
version = "0.1.0"
edition = "2021"
publish = false

[dependencies]
anyhow = "=1.0.104"
bytemuck = { version = "=1.25.2", features = ["derive"] }
cgmath = "=0.18.0"
fps_counter = "=3.0.0"
log = "=0.4.34"
tokio = { version = "=1.53.2", default-features = false, features = ["macros", "rt-multi-thread"] }
wgpu = { version = "=0.19.4", default-features = false, features = ["wgsl"] }
