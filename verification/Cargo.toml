[package]
name = "bevy_demo"
version = "0.1.0"
edition = "2021"
publish = false

[dependencies]
ratatui = "0.29"
crossterm = "0.28"
ratatui-image = "8"
image = { version = "0.25", default-features = false, features = ["png"] }
toml = "0.8"
serde = { version = "1", features = ["derive"] }
subsecond = "*"
