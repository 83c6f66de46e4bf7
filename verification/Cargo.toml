[package]
name = "flight_dynamics"
version = "0.1.0"
edition = "2021"
publish = false

[dependencies]
avian3d = { version = "0.3", default-features = false, features = ["3d", "f32", "parry-f32", "default-collider"] }
bevy = { version = "0.16", default-features = false, features = ["std", "bevy_asset", "bevy_color", "bevy_core_pipeline", "bevy_gizmos", "bevy_pbr", "bevy_render", "bevy_scene", "bevy_text", "bevy_ui", "bevy_window"] }
rand = "0.9"
serde = { version = "1", features = ["derive"] }
toml = "0.8"
