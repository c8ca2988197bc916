[package]
name = "win_audio_capture"
version = "0.1.0"
edition = "2021"
publish = false

[dependencies]
crossbeam-channel = "0.5"
clap = { version = "4", features = ["derive"] }
ctrlc = "3"
anyhow = "1"

[dev-dependencies]
hound = "3"
