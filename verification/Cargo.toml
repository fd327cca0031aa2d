[package]
name = "corex_backend"
version = "0.1.0"
edition = "2021"
publish = false

[dependencies]
cudarc = { version = "=0.19.10", default-features = false, features = ["std", "driver", "nvrtc", "f16", "cuda-12080", "dynamic-loading"] }
half = "=2.7.1"
thiserror = "=1.0.69"
