[package]
name = "patrol"
version = "0.1.0"
edition = "2021"
publish = false

[dependencies]
inotify = { version = "0.7", default-features = false }
failure = "0.1"
