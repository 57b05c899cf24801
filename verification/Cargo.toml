[package]
name = "tomlenv"
version = "0.1.0"
edition = "2021"
publish = false

[dependencies]
clap = "2"
getset = "0.1"
serde = { version = "1", features = ["derive"] }
serde_derive = "1"
toml = "0.5"
