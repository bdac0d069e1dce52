[package]
name = "frame_pipeline"
version = "0.1.0"
edition = "2021"
publish = false

[dependencies]
jpeg-encoder = "*"
video-rs = "*"
