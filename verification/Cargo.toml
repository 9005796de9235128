[package]
name = "ratcrate"
version = "0.1.0"
edition = "2021"
publish = false

[dependencies]
base64 = "=0.22.1"
crossterm = "=0.29.0"
image = { version = "=0.25.10", default-features = false, features = ["png", "jpeg"] }
lofty = "=0.22.4"
rand = "=0.8.8"
ratatui = "=0.30.2"
ratatui-image = { version = "=1.0.5", default-features = false, features = ["crossterm"] }
rodio = { version = "0.19", default-features = false, features = ["wav", "mp3", "flac", "vorbis"] }
serde = { version = "=1.0.229", features = ["derive"] }
serde_json = "=1.0.154"
sha2 = "=0.10.9"
ureq = { version = "=2.12.1", features = ["json"] }
