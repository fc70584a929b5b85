[package]
name = "face_center"
version = "0.1.0"
edition = "2021"
publish = false

[dependencies]
anyhow = "=1.0.104"
opencv = "=0.92.3"
