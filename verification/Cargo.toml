[package]
name = "spotify_peek"
version = "0.1.0"
edition = "2021"
publish = false

[dependencies]
async-channel = "2"
base64 = "0.22"
gtk4 = { version = "*", features = ["v4_12"] }
gtk4-layer-shell = "*"
serde_json = "1"
ureq = "3"
zbus = "5"
