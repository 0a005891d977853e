[package]
name = "rubber_duck"
version = "0.1.0"
edition = "2021"
publish = false

[dependencies]
anyhow = "1"
cpal = "0.15"
llama-cpp-2 = { version = "0.1", default-features = false }
whisper-rs = "0.14"
