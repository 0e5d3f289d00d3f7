[package]
name = "luminal_rocm_lite"
version = "0.1.0"
edition = "2021"
publish = false

[dependencies]
anyhow = "=1.0.104"
as-any = "=0.3.2"
half = "=2.7.1"
libloading = "=0.8.9"
rocmrc = { version = "=0.2.0", features = ["dynamic-loading", "hipblaslt", "rocblas", "rocm-07021"] }
