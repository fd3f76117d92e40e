[package]
name = "rend3"
version = "0.1.0"
edition = "2021"
publish = false

[dependencies]
fnv = "1.0"
futures = "0.3"
glam = "*"
indexmap = "1.9"
parking_lot = "0.11"
shaderc = "0.7"
wgpu = "0.7"
