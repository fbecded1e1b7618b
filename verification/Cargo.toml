[package]
name = "song_library"
version = "0.1.0"
edition = "2021"
publish = false

[dependencies]
reqwest = "0.12"
rusty_ytdl = "0.7.4"
serde = { version = "1", features = ["derive"] }
serde_json = "1"
