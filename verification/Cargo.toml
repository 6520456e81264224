[package]
name = "bevy_enoki"
version = "0.1.0"
edition = "2021"
publish = false

[dependencies]
bevy_app = "=0.19.1"
bevy_asset = "=0.19.1"
bevy_camera = "=0.19.1"
bevy_color = "=0.19.1"
bevy_core_pipeline = "=0.19.1"
bevy_derive = "=0.19.1"
bevy_ecs = "=0.19.1"
bevy_math = "=0.19.1"
bevy_mesh = "=0.19.1"
bevy_reflect = "=0.19.1"
bevy_render = "=0.19.1"
bevy_shader = "=0.19.1"
bevy_sprite_render = "=0.19.1"
bevy_time = "=0.19.1"
bevy_transform = "=0.19.1"
rand = "=0.9.5"
wide = "1"
