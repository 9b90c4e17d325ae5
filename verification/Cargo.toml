[package]
name = "textnonce"
version = "0.1.0"
edition = "2021"
publish = false

[dependencies]
base64 = "0.13"
byteorder = "1"
chrono = { version = "0.4", default-features = false, features = ["clock"] }
rand = "0.5"
serde = { version = "1", features = ["derive"] }

[dev-dependencies]
bincode = "1"
