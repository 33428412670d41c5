[package]
name = "grinbot"
version = "0.1.0"
edition = "2021"
publish = false

[dependencies]
url = "*"
serde_json = "*"
clap = "*"
yaml-rust = "*"
reqwest = { version = "*", default-features = false, features = ["blocking", "json"] }
