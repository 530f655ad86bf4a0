[package]
name = "pose_nudge"
version = "0.1.0"
edition = "2021"
publish = false

[dependencies]
base64 = "*"
image = "*"
ndarray = "*"
ort = "=2.0.0-rc.13"
parking_lot = "*"
serde = { version = "*", features = ["derive"] }
serde_json = "*"
