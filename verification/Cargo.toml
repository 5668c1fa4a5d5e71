[package]
name = "bakery_text"
version = "0.1.0"
edition = "2021"
publish = false

[dependencies]
rand = "=0.10.3"
bevy = { version = "=0.19.1", default-features = false, features = ["std", "async_executor", "bevy_asset", "bevy_log", "bevy_state", "bevy_window", "bevy_color", "bevy_camera", "bevy_text", "bevy_ui", "bevy_input_focus", "keyboard", "default_font"] }
