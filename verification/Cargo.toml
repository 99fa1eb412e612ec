[package]
name = "media_sorter"
version = "0.1.0"
edition = "2021"
publish = false

[dependencies]
chrono = { version = "0.4", default-features = false, features = ["std"] }
regex = "1"
kamadak-exif = "*"
ffprobe = "*"
human_bytes = "*"
