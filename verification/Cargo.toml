[package]
name = "gradient_compute"
version = "0.1.0"
edition = "2021"
publish = false

[dependencies]
futures-intrusive = "0.5"
image = { version = "0.25", default-features = false, features = ["png"] }
pollster = "0.4"
wgpu = "26"
