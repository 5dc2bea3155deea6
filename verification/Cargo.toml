[package]
name = "volta"
version = "0.1.0"
edition = "2021"
publish = false

[dependencies]
attohttpc = { version = "=0.31.0", default-features = false }
headers = "=0.4.2"
hex = "=0.4.3"
semver = "=1.0.28"
serde = { version = "=1.0.229", features = ["derive"] }
serde_json = "=1.0.154"
sha1 = "=0.10.7"
which = "=8.0.6"
