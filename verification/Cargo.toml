[package]
name = "midi_revolution"
version = "0.1.0"
edition = "2021"
publish = false

[dependencies]
crossbeam-channel = "=0.5.17"
rand = "=0.8.8"
bevy = { version = "=0.10.1", default-features = false, features = ["bevy_asset", "bevy_core_pipeline", "bevy_pbr", "bevy_render", "bevy_winit", "x11"] }
bevy_egui = { version = "=0.20.3", default-features = false, features = ["default_fonts"] }
bevy_rapier3d = "=0.21.0"
