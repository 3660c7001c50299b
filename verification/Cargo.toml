[package]
name = "compute_engine"
version = "0.1.0"
edition = "2021"
publish = false

[dependencies]
anyhow = "*"
bytemuck = "*"
erupt = "*"
gpu-alloc = "*"
gpu-alloc-erupt = "*"
shaderc = "*"
