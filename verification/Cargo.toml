[package]
name = "scils"
version = "0.1.0"
edition = "2021"
publish = false

[dependencies]
md5 = "*"
serde = { version = "*", features = ["derive"] }
config-file = "*"
picontrol = "*"
