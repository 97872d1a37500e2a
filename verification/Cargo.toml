[package]
name = "sprite_collider"
version = "0.1.0"
edition = "2021"
publish = false

[dependencies]
lyon = "1.0"
bevy = { version = "0.8", default-features = false, features = ["bevy_asset", "bevy_winit", "render", "png", "x11", "filesystem_watcher"] }
bevy_rapier2d = "0.16"
bevy_common_assets = { version = "0.3", features = ["ron"] }
serde = { version = "1", features = ["derive"] }
