[package]
name = "consul"
version = "0.1.0"
edition = "2021"
publish = false

[dependencies]
serde_json = "=1.0.151"
reqwest = { version = "=0.12.28", default-features = false, features = ["json", "rustls-tls"] }
