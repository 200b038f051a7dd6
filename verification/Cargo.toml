[package]
name = "mq-http-rust-sdk"
version = "1.0.4"
edition = "2021"
publish = false

[dependencies]
base64 = "0.21"
chrono = { version = "0.4", default-features = false, features = ["clock", "std"] }
hmac = "0.12"
log = "0.4"
md5 = "0.7"
quick-xml = { version = "0.31", features = ["serialize"] }
regex = "1"
reqwest = { version = "0.11", default-features = false }
serde = { version = "1", features = ["derive"] }
serde_urlencoded = "0.7"
sha1 = "0.10"
thiserror = "1"
url = "2"
