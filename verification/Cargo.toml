[package]
name = "spoticord"
version = "0.1.0"
edition = "2021"
publish = false

[dependencies]
anyhow = "1"
base64 = "0.22"
bytes = "1"
dotenvy = "0.15"
env_logger = { version = "0.11", default-features = false }
http = "1"
image = { version = "0.25", default-features = false, features = ["png"] }
librespot = { version = "0.8", default-features = false, features = ["rustls-tls-webpki-roots"] }
log = "0.4"
poise = { version = "0.6", default-features = false }
qrcode = { version = "0.14", default-features = false }
serde = { version = "1", features = ["derive"] }
serde_json = "1"
serenity = { version = "0.12", default-features = false, features = ["builder", "cache", "client", "gateway", "model", "utils", "rustls_backend", "collector"] }
tokio = { version = "1", features = ["full"] }
url = "2"
urlencoding = "2"
