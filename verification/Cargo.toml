[package]
name = "lumina"
version = "0.1.0"
edition = "2021"
publish = false

[dependencies]
rand = "=0.8.8"
hmac = "=0.12.1"
sha2 = "=0.10.9"
argon2 = "=0.5.3"
x25519-dalek = { version = "=2.0.1", features = ["static_secrets"] }
image = { version = "=0.25.10", default-features = false, features = ["jpeg"] }
rcgen = "=0.11.3"
rustls = { version = "=0.21.12", features = ["dangerous_configuration"] }
quinn = "=0.10.2"
tokio = { version = "=1.54.1", features = ["full"] }
serde = { version = "=1.0.229", features = ["derive"] }
serde_json = "=1.0.154"
mdns-sd = "=0.21.7"
tokio-tungstenite = "=0.30.0"
futures-util = "=0.3.34"
url = "=2.5.8"
axum = { version = "=0.7.9", features = ["ws"] }
tracing = "=0.1.44"
tracing-subscriber = "=0.3.23"
base64 = "=0.22.1"
enigo = "=0.1.3"
dashmap = "6"
