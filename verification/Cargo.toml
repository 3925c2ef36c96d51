[package]
name = "gpu_tensor"
version = "0.1.0"
edition = "2021"
publish = false

[dependencies]
wgpu = "=0.17.2"
bytemuck = { version = "=1.25.2", features = ["extern_crate_alloc"] }
flume = "=0.11.1"
pollster = "=0.3.0"
env_logger = "=0.10.2"
