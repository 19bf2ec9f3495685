[package]
name = "marker_tracking"
version = "0.1.0"
edition = "2021"
publish = false

[dependencies]
openxr = { version = "*", default-features = false }
glam = "*"
