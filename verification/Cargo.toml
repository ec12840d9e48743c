[package]
name = "plato_agent"
version = "0.1.0"
edition = "2021"
publish = false

[dependencies]
clap = { version = "=4.6.7", features = ["derive"] }
rustix = { version = "=1.1.6", features = ["fs", "process"] }
serde = { version = "=1.0.229", features = ["derive"] }
serde_json = "=1.0.154"
toml = "=0.9.12"
tungstenite = { version = "=0.26.2", default-features = false, features = ["handshake", "url", "rustls-tls-webpki-roots"] }
ureq = { version = "=2.12.1", default-features = false, features = ["json", "tls"] }
url = "=2.5.8"
