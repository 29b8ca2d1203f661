[package]
name = "rust_music_player"
version = "0.1.0"
edition = "2021"
publish = false

[dependencies]
anyhow = "1"
chrono = { version = "=0.4.45", features = ["serde"] }
rodio = "0.17"
serde = { version = "1", features = ["derive"] }
serde_json = "1"
symphonia = "0.5"
tokio = { version = "1", default-features = false, features = ["sync"] }
tracing = "0.1"
tracing-subscriber = "0.3"
walkdir = "2"
