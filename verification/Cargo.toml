[package]
name = "pixel_planets_rs"
version = "0.1.0"
edition = "2021"
publish = false

[dependencies]
bevy = { version = "0.17", default-features = false, features = ["bevy_sprite_render", "bevy_log"] }
rand = "0.10"
