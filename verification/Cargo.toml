[package]
name = "alpha_blend"
version = "0.1.0"
edition = "2021"
publish = false

[dependencies]
bytemuck = "1"
libm = "0.2"
