[package]
name = "hexthing"
version = "0.1.0"
edition = "2021"
publish = false

[dependencies]
gfx-hal = "0.1"
gfx-backend-empty = "0.1"
winit = "0.18"
glsl-to-spirv = "0.1"
nalgebra = "0.16"
fnv = "1"
