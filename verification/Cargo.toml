[package]
name = "keeper_channel"
version = "0.1.0"
edition = "2021"
publish = false

[dependencies]
aes-gcm = "0.10"
sha2 = "0.10"
base64 = "0.22"
x25519-dalek = { version = "2", features = ["static_secrets"] }
serde = { version = "1", features = ["derive"] }
serde_json = "1"
hex = "0.4"
rust_socketio = "*"
tokio = { version = "1", features = ["rt-multi-thread", "time", "macros", "sync"] }
log = "0.4"

[dev-dependencies]
