[package]
name = "mapdata"
version = "0.1.0"
edition = "2021"
publish = false

[dependencies]
crdts = "6"
multibase = "*"
serde = { version = "*", features = ["derive"] }
