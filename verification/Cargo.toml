[package]
name = "land_title"
version = "0.1.0"
edition = "2021"
publish = false

[dependencies]
exonum = { version = "*", default-features = false }
geo = "*"
time = "*"
serde = { version = "*", features = ["derive"] }
serde_derive = "*"
byteorder = "*"
