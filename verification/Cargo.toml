[package]
name = "game_plugin"
version = "0.1.0"
edition = "2021"
publish = false

[dependencies]
bevy = { version = "=0.9.1", default-features = false, features = ["render", "bevy_asset"] }
