[package]
name = "voicestudio"
version = "0.1.0"
edition = "2021"
publish = false

[dependencies]
serde = { version = "1", features = ["derive"] }
hound = "3"
cpal = "*"
rodio = { version = "*", default-features = false, features = ["playback", "wav"] }
symphonia = { version = "0.5", features = ["all"] }
rust-i18n = "3"
