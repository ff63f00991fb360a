[package]
name = "bevy_smuggle"
version = "0.1.0"
edition = "2021"
publish = false

[dependencies]
bevy_ecs = { version = "=0.6.1", default-features = false }
tracing = "=0.1.37"
tracing-attributes = "=0.1.23"
