[package]
name = "game_logic"
version = "0.1.0"
edition = "2021"
publish = false

[dependencies]
bevy = { version = "=0.17.3", default-features = false, features = ["bevy_sprite", "bevy_state", "bevy_asset", "bevy_log", "std", "multi_threaded", "bevy_ui", "bevy_text", "bevy_window", "png", "default_font"] }
avian2d = { version = "=0.4.1", default-features = false, features = ["2d", "f32", "parry-f32", "default-collider"] }
seldom_state = { version = "=0.15.0", default-features = false }
bevy_asset_loader = { version = "0.24", default-features = false }
