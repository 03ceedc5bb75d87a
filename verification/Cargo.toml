[package]
name = "shader_material"
version = "0.1.0"
edition = "2021"
publish = false

[dependencies]
bevy = { version = "=0.7.0", default-features = false, features = ["bevy_core_pipeline", "bevy_render", "bevy_sprite", "bevy_winit", "x11", "filesystem_watcher"] }
darling_macro = "=0.13.4"
