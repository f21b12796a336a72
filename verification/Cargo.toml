[package]
name = "schulte"
version = "0.1.0"
edition = "2021"
publish = false

[dependencies]
rand = "=0.9.5"
bevy = { version = "=0.17.3", default-features = false, features = ["bevy_ui", "bevy_log", "default_font", "std"] }
bevy_tweening = "=0.14.0"
