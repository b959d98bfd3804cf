[package]
name = "rt_local"
version = "0.1.0"
edition = "2021"
publish = false

[dependencies]
slabmap = "=0.2.1"

[dev-dependencies]
async-std = "1"
