[package]
name = "devent_recorder"
version = "0.1.0"
edition = "2021"
publish = false

[dependencies]
uuid = { version = "*", features = ["v4"] }
chrono = "*"
reqwest = { version = "*", default-features = false, features = ["blocking"] }
ffmpeg-sidecar = "*"
rdev = "*"
log = "*"
url = "*"

[dev-dependencies]
serde_json = "*"
