[package]
name = "memedsn"
version = "0.1.0"
edition = "2021"
publish = false

[dependencies]
regex = "1"
memegeom = "*"
eyre = "*"
strum = { version = "*", features = ["derive"] }
derive_more = { version = "*", features = ["display"] }
