[package]
name = "sdf_render"
version = "0.1.0"
edition = "2021"
publish = false

[dependencies]
anyhow = "1"
ash = "*"
byte-slice-cast = "*"
glam = "*"
log = "0.4"
vk-sync = "*"
winit = "*"
