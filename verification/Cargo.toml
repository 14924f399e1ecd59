[package]
name = "melody"
version = "0.1.0"
edition = "2021"
publish = false

[dependencies]
anyhow = "1"
crossterm = "0.27"
directories = "5"
lofty = "0.15"
ratatui = "0.23"
rodio = "0.17"
serde = { version = "1", features = ["derive"] }
time = { version = "0.3", features = ["local-offset"] }
toml = "0.7"
