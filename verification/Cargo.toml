[package]
name = "bat_flight"
version = "0.1.0"
edition = "2021"
publish = false

[dependencies]
bevy = { version = "0.17", default-features = false, features = ["bevy_pbr", "bevy_ui", "bevy_text", "bevy_scene", "bevy_animation", "bevy_gizmos", "bevy_state", "default_font"] }
rand = "0.9"
bevy_wind_waker_shader = "0.5"
