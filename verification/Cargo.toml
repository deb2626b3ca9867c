[package]
name = "render2d"
version = "0.1.0"
edition = "2021"
publish = false

[dependencies]
ab_glyph = "0.2"
bytemuck = { version = "1", features = ["derive"] }
cgmath = "0.18"
wgpu = "0.12"
wgpu_glyph = "0.16"
