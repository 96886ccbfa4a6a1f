[package]
name = "qr_png"
version = "0.1.0"
edition = "2021"
publish = false

[dependencies]
fastly = "0.8"
image = { version = "0.23", default-features = false, features = ["png"] }
qrcode = { version = "0.12", default-features = false, features = ["image"] }
serde = { version = "1", features = ["derive"] }
serde_urlencoded = "0.7"

[dev-dependencies]
rqrr = { version = "*", default-features = false }
