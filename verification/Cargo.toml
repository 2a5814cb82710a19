[package]
name = "resource_identifier"
version = "0.1.0"
edition = "2021"
publish = false

[dependencies]
libc = "=0.2.191"
nvtx-sys = { version = "=2.0.0", features = ["cuda", "cuda_runtime"] }
