[package]
name = "neighbor_cache"
version = "0.1.0"
edition = "2021"
publish = false

[dependencies]
managed = { version = "=0.8.0", features = ["map"] }
