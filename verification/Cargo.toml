[package]
name = "obsidian_ui"
version = "0.1.0"
edition = "2021"
publish = false

[dependencies]
bevy = { version = "0.14.2", default-features = false }
bevy_color = "0.14.3"
