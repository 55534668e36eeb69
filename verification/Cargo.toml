[package]
name = "web_audio_osc"
version = "0.1.0"
edition = "2021"
publish = false

[dependencies]
crossbeam-channel = "0.5"
lazy_static = "1.4"
