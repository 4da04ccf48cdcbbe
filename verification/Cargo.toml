[package]
name = "clinvoice"
version = "0.1.0"
edition = "2021"
publish = false

[dependencies]
chrono = "0.4"
money2 = "*"
clap = { version = "3", features = ["derive"] }
humantime = "2"
serde = { version = "1", features = ["derive"] }
serde_yaml = "*"
toml = "*"
dialoguer = "*"
