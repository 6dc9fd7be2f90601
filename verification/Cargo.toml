[package]
name = "shooter_core"
version = "0.1.0"
edition = "2021"
publish = false

[dependencies]
bevy = { version = "=0.9.1", default-features = false, features = ["bevy_asset", "bevy_winit", "bevy_core_pipeline", "bevy_render", "bevy_sprite", "x11"] }
bevy_hanabi = { version = "=0.5.3", default-features = false, features = ["2d"] }
bevy_rapier2d = "=0.19.0"
serde = { version = "=1.0.229", features = ["derive"] }
typetag = "=0.2.23"
