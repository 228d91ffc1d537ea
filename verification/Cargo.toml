[package]
name = "voxygen_render"
version = "0.1.0"
edition = "2021"
publish = false

[dependencies]
gfx = "0.18"
gfx_device_gl = "0.16"
glsl-include = "0.3"
image = { version = "0.23", default-features = false }
log = "0.4"
serde = { version = "1.0", features = ["derive"] }
specs = "0.16"
vek = { version = "0.17", features = ["serde"] }
