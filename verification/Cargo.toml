[package]
name = "falling_sand"
version = "0.1.0"
edition = "2021"
publish = false

[dependencies]
anyhow = "1"
comfy = { version = "0.3", default-features = false }
num-traits = "0.2"
rand = "0.8"
