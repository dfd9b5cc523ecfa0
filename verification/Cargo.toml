[package]
name = "bounce_up"
version = "0.1.0"
edition = "2021"
publish = false

[dependencies]
bevy = { version = "=0.9.1", default-features = false, features = ["bevy_asset", "bevy_core_pipeline", "bevy_render", "bevy_sprite", "bevy_text", "bevy_ui", "png"] }
bevy_kira_audio = { version = "0.13", default-features = false, features = ["ogg", "flac"] }
fastrand = "=1.9.0"
wasm-bindgen = "=0.2.130"
