[package]
name = "openwispr"
version = "0.1.0"
edition = "2021"
publish = false

[dependencies]
chrono = "*"
serde = { version = "*", features = ["derive"] }
serde_json = "*"
ureq = "2"
hound = "*"
arboard = "*"
dirs = "*"
device_query = "*"
