[package]
name = "scene_viewer"
version = "0.1.0"
edition = "2021"
publish = false

[dependencies]
anyhow = "1"
ash = "0.36"
ash-window = "0.9"
clap = "3"
cstr = "0.2"
env_logger = "0.9"
gltf = "1"
gpu-allocator = "0.17"
log = "0.4"
maplit = "1"
nalgebra-glm = "*"
winit = "0.26"
