[package]
name = "psx_core"
version = "0.1.0"
edition = "2021"
publish = false

[dependencies]
arrayvec = "0.7"
bytemuck = "1"
anyhow = "1"
crossbeam = "0.8"
core_affinity = "0.8"
