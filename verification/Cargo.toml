[package]
name = "space_physics"
version = "0.1.0"
edition = "2021"
publish = false

[dependencies]
bevy = { version = "=0.14.2", default-features = false }
bevy_math = "=0.14.2"
big_space = { version = "=0.7.0", default-features = false }
