[package]
name = "qfei_doctor"
version = "0.1.0"
edition = "2021"
publish = false

[dependencies]
url = "2"
serde = { version = "1", features = ["derive"] }
serde_json = "1"
x509-parser = "0.17"
rustls = "0.23"
tokio = { version = "1", features = ["full"] }
tokio-rustls = "0.26"
reqwest = { version = "0.12", default-features = false, features = ["rustls-tls"] }
hickory-resolver = "0.25"
webpki-roots = "1"
winreg = "0.55"
