[package]
name = "bevy_ufbx"
version = "0.1.0"
edition = "2021"
publish = false

[dependencies]
bevy = { version = "=0.17.3", default-features = false, features = ["bevy_asset", "bevy_pbr", "bevy_render", "bevy_scene"] }
serde = { version = "=1.0.229", features = ["derive"] }
ufbx = "=0.11.5"
