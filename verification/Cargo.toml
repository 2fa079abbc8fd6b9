[package]
name = "blok"
version = "0.1.0"
edition = "2021"
publish = false

[dependencies]
glam = "*"
gl = "*"
sdl2 = "*"
