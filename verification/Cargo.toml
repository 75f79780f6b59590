[package]
name = "kuro"
version = "0.1.0"
edition = "2021"
publish = false

[dependencies]
anyhow = "1"
clap = { version = "4", features = ["derive", "env"] }
dirs = "*"
indexmap = { version = "2", features = ["serde"] }
serde = { version = "1", features = ["derive"] }
toml = "*"
