[package]
name = "pixelvault_desktop"
version = "0.1.0"
edition = "2021"
publish = false

[dependencies]
arboard = "3"
image = { version = "0.25", default-features = false, features = ["png"] }
keyring = { version = "3", features = ["apple-native", "linux-native"] }
reqwest = { version = "0.12", default-features = false, features = ["blocking", "json", "multipart", "rustls-tls"] }
serde = { version = "1", features = ["derive"] }
serde_json = "1"
