[package]
name = "youtube_downloader"
version = "0.1.0"
edition = "2021"
publish = false

[dependencies]
dirs = "5"
reqwest = "0.12"
rusty_ytdl = "0.7.4"
serde = { version = "1", features = ["derive"] }
serde_json = "1"
