[package]
name = "moo"
version = "0.1.0"
edition = "2021"
publish = false

[dependencies]
glam = "=0.34.1"
pollster = "=1.0.1"
wgpu = "26.0.1"
