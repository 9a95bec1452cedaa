[package]
name = "nes_platform"
version = "0.1.0"
edition = "2021"
publish = false

[dependencies]
sdl2 = "*"
