[package]
name = "frameview"
version = "0.1.0"
edition = "2021"
publish = false

[dependencies]
anyhow = "*"
image = "*"
softbuffer = "*"
winit = "*"
