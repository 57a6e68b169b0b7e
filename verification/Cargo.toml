[package]
name = "lens_rings"
version = "0.1.0"
edition = "2021"
publish = false

[dependencies]
anyhow = "1"
nalgebra = "*"
serde = { version = "1", features = ["derive"] }
stl_io = "*"
