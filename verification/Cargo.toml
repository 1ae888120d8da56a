[package]
name = "git-shade"
version = "0.1.0"
edition = "2021"
publish = false

[dependencies]
anyhow = "=1.0.104"
chrono = { version = "=0.4.45", features = ["serde"] }
clap = { version = "=4.6.7", features = ["derive"] }
colored = "=2.2.0"
dialoguer = "=0.11.0"
dirs = "=5.0.1"
hostname = "=0.4.2"
serde = { version = "=1.0.229", features = ["derive"] }
thiserror = "=1.0.69"
toml = "=0.8.23"
walkdir = "=2.5.0"

[dev-dependencies]
tempfile = "=3.27.0"
