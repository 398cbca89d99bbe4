[package]
name = "dps"
version = "0.1.0"
edition = "2021"
publish = false

[dependencies]
base64 = "=0.9.3"
serde_json = "=1.0.151"

[dev-dependencies]
percent-encoding = "=1.0.1"
form_urlencoded = "=1.2.2"
