[package]
name = "bevy_splash_screen"
version = "0.1.0"
edition = "2021"
publish = false

[dependencies]
bevy = { version = "0.14", default-features = false, features = ["bevy_color", "bevy_state"] }
bevy_tweening = { version = "0.11", default-features = false }
