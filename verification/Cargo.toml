[package]
name = "bevy_game"
version = "0.1.0"
edition = "2021"
publish = false

[dependencies]
bevy = { version = "0.8", default-features = false }
bevy_rapier3d = { version = "0.16", default-features = false, features = ["dim3"] }
bevy_kira_audio = { version = "0.12", default-features = false }
log = "0.4"
serde = { version = "1", features = ["derive"] }
