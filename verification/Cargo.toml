[package]
name = "luminal_backends"
version = "0.1.0"
edition = "2021"
publish = false

[dependencies]
bytemuck = "1"
half = { version = "2", features = ["bytemuck"] }
itertools = "0.14"
libloading = "0.8"
luminal = "*"
opencl3 = "*"
petgraph = "*"
rustc-hash = "2"
