[package]
name = "hemu_gui"
version = "0.1.0"
edition = "2021"
publish = false

[dependencies]
base64 = "0.22"
sha2 = "0.10"
serde = { version = "1", features = ["derive"] }
serde_json = "1"
png = "0.17"
chrono = "0.4"
rand = "0.9"
