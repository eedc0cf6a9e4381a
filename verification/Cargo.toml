[package]
name = "mucast"
version = "0.1.0"
edition = "2021"
publish = false

[dependencies]
regex = "1"
serde = { version = "1", features = ["derive"] }
serde_json = "1"
log = "0.4"
fern = "0.6"
tokio = { version = "1", features = ["full"] }
warp = "0.3"
mdns = "3"
futures-util = "0.3"
rust_cast = "*"
ffmpeg-next = "*"
