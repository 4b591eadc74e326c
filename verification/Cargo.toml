[package]
name = "slack"
version = "0.1.0"
edition = "2021"
publish = false

[dependencies]
rustc-serialize = "*"
reqwest = { version = "*", default-features = false }
websocket = { version = "*", default-features = false, features = ["sync"] }
url = "*"
