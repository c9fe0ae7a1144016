[package]
name = "hitman_commons"
version = "0.1.0"
edition = "2021"
publish = false

[dependencies]
arc-swap = "*"
brotli-decompressor = "*"
glacier-texture = "*"
identity-hash = "*"
md5 = "*"
papaya = "*"
rpkg-rs = "*"
serde = { version = "*", features = ["derive"] }
serde_json = "*"
serde-smile = "*"
tonytools = "*"
