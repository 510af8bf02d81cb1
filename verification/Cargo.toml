[package]
name = "bert"
version = "0.1.0"
edition = "2021"
publish = false

[dependencies]
bevy = { version = "0.15", default-features = false, features = ["bevy_asset", "bevy_render", "bevy_core_pipeline", "bevy_sprite", "bevy_text", "bevy_picking", "bevy_mesh_picking_backend"] }
bevy_prototype_lyon = "0.13"
