[package]
name = "media_player"
version = "0.1.0"
edition = "2021"
rust-version = "1.95"
publish = false

[dependencies]
glib = "0.20"
gstreamer = "0.23"
log = "=0.4.34"
serde = { version = "=1.0.229", features = ["derive"] }
