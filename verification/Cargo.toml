[package]
name = "s2_login"
version = "0.1.0"
edition = "2021"
publish = false

[dependencies]
async-trait = "=0.1.92"
axum = "=0.8.9"
base64ct = { version = "=1.8.3", features = ["alloc"] }
colored = "=3.1.1"
fs2 = "=0.4.3"
miette = "=7.6.0"
rand = "=0.10.3"
reqwest = { version = "=0.13.5", default-features = false, features = ["form", "rustls"] }
s2-sdk = { version = "=0.35.3", features = ["_hidden"] }
secrecy = "=0.10.3"
serde = { version = "=1.0.229", features = ["derive"] }
serde_json = "=1.0.154"
sha2 = "=0.11.1"
thiserror = "=2.0.21"
tokio = { version = "=1.54.1", features = ["full"] }
uuid = { version = "=1.29.0", features = ["v4"] }
