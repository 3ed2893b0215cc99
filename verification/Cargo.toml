[package]
name = "xbfisher"
version = "0.1.0"
edition = "2021"
publish = false

[dependencies]
chrono = "0.4"
csv = "1"
rand = "0.8"
regex = "1"
serde = { version = "1", features = ["derive"] }
socket2 = { version = "0.5", features = ["all"] }
systemstat = "0.2"
