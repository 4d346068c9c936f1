[package]
name = "bevy_game"
version = "0.1.0"
edition = "2021"
publish = false

[dependencies]
bevy = { version = "0.17.3", default-features = false, features = ["std", "multi_threaded", "bevy_asset", "bevy_color", "bevy_log", "bevy_picking", "bevy_sprite", "bevy_state", "bevy_text", "bevy_ui", "bevy_ui_picking_backend", "bevy_window"] }
rand = "0.9.5"
webbrowser = "1.2.6"
