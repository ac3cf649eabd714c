[package]
name = "diwa"
version = "0.1.0"
edition = "2021"
publish = false

[dependencies]
url = "*"
serde_json = "*"
iso8601 = "*"
reqwest = { version = "*", default-features = false, features = ["blocking", "rustls-tls"] }
