[package]
name = "wifilocation"
version = "0.3.0"
edition = "2021"
publish = false

[dependencies]
reqwest = { version = "0.12", default-features = false, features = ["blocking", "json", "rustls-tls"] }
serde = "1"
serde_derive = "1"
serde_json = "1"
wifiscanner = "*"
