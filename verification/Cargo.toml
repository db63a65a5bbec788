[package]
name = "audio_visualizer"
version = "0.1.0"
edition = "2021"
publish = false

[dependencies]
rfd = "=0.15.4"
rodio = "=0.20.1"
rustfft = "=6.4.1"
