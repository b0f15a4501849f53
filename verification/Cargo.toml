[package]
name = "hiz"
version = "0.1.0"
edition = "2021"
publish = false

[dependencies]
bevy_app = "0.14"
bevy_asset = "0.14"
bevy_ecs = "0.14"
bevy_reflect = "0.14"
