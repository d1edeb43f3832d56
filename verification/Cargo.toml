[package]
name = "voxelmesh"
version = "0.1.0"
edition = "2021"
publish = false

[dependencies]
wgpu = { version = "*", default-features = false }
bytemuck = "*"
parking_lot = "*"
dashmap = "*"
