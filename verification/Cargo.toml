[package]
name = "camera_blur"
version = "0.1.0"
edition = "2021"
publish = false

[dependencies]
bevy = { version = "0.13", default-features = false }
bevy_tweening = { version = "0.10", default-features = false }
