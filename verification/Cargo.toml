[package]
name = "silence-with-sound"
version = "0.1.0"
edition = "2021"
publish = false

[dependencies]
anyhow = "1"
clap = { version = "4", features = ["derive"] }
delegate = "*"
ffmpeg-next = "6"
gtk4 = { version = "0.7", features = ["v4_10"] }
humantime = "2"
rand = "0.8"
rodio = "0.17"
