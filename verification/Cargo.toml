[package]
name = "chessboard"
version = "0.1.0"
edition = "2021"
publish = false

[dependencies]
bevy = { version = "0.10", default-features = false, features = ["bevy_asset", "bevy_core_pipeline", "bevy_render", "bevy_sprite", "bevy_winit", "png", "serialize", "x11"] }
bevy_tweening = { version = "0.7", default-features = false }
fen = "0.1"
ron = "0.8"
serde = { version = "1", features = ["derive"] }
