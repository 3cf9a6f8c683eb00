[package]
name = "wav_recorder"
version = "0.1.0"
edition = "2021"
publish = false

[dependencies]
hound = "3.5"
cpal = "0.15"
