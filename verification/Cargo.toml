[package]
name = "aog_core"
version = "0.2.0"
edition = "2021"
publish = false

[dependencies]
rand = "0.8"
rouille = "*"
rppal = "*"
serde = { version = "1", features = ["derive"] }
shuteye = "*"
