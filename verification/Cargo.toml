[package]
name = "rescaler"
version = "0.1.0"
edition = "2021"
publish = false

[dependencies]
artnet_protocol = "*"
rosc = "*"
midir = "*"
serde = { version = "*", features = ["derive"] }
serde_yaml = "*"
anyhow = "*"
log = "*"
simplelog = "*"
