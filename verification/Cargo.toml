[package]
name = "audio_downloader"
version = "0.1.0"
edition = "2021"
publish = false

[dependencies]
dirs = "6"
iced = { version = "0.13", default-features = false, features = ["tiny-skia", "tokio"] }
tokio = { version = "1", features = ["process", "io-util", "sync", "rt"] }
