[package]
name = "video_frames"
version = "0.1.0"
edition = "2021"
publish = false

[dependencies]
dunce = "1"
image = "0.25"
serde = { version = "1", features = ["derive"] }
