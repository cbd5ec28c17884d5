[package]
name = "cdd"
version = "0.1.0"
edition = "2021"
publish = false

[dependencies]
url = "*"
openapiv3 = "*"
serde = { version = "*", features = ["derive"] }
serde_json = "*"
serde_yaml = "*"
