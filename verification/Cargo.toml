[package]
name = "repogen"
version = "0.1.0"
edition = "2021"
publish = false

[dependencies]
anyhow = "1"
clap = { version = "4", features = ["derive"] }
console = "*"
dialoguer = "*"
dirs = "*"
indicatif = "*"
reqwest = { version = "=0.13.5", default-features = false, features = ["blocking", "json", "form"] }
serde = { version = "1", features = ["derive"] }
serde_json = "=1.0.151"
toml = "*"
webbrowser = "*"
