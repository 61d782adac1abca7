[package]
name = "vad_recorder"
version = "0.1.0"
edition = "2021"
publish = false

[dependencies]
alsa = "0.9"
anyhow = "1"
chrono = "0.4"
clap = { version = "4", features = ["derive"] }
rusb = "0.9"
tokio = { version = "1", features = ["macros", "process", "rt-multi-thread", "time"] }
