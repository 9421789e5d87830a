[package]
name = "audio_stream"
version = "0.1.0"
edition = "2021"
publish = false

[dependencies]
async-stream = "=0.3.6"
cpal = "=0.15.3"
tokio = { version = "=1.54.1", features = ["macros", "rt-multi-thread", "signal", "time"] }
warp = "=0.3.7"
