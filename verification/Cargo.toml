[package]
name = "frame_assets"
version = "0.1.0"
edition = "2021"
publish = false

[dependencies]
blake2b_simd = "1"
clap = { version = "4", features = ["derive"] }
