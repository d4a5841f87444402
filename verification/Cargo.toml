[package]
name = "lsfg-vk-ui"
version = "0.1.0"
edition = "2021"
publish = false

[dependencies]
dirs = "*"
gtk4 = "*"
libadwaita = "*"
serde = { version = "1", features = ["derive"] }
toml = "*"
