[package]
name = "horde"
version = "0.1.0"
edition = "2021"
publish = false

[dependencies]
bevy = { version = "=0.17.3", default-features = false, features = ["bevy_sprite", "bevy_text", "bevy_ui", "bevy_gizmos", "default_font", "png", "bevy_sprite_render"] }
rand = "=0.8.8"
