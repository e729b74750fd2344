[package]
name = "cheatnet"
version = "0.1.0"
edition = "2021"
publish = false

[dependencies]
anyhow = "=1.0.104"
camino = { version = "=1.2.6", features = ["serde1"] }
clap = { version = "=4.6.7", features = ["derive"] }
rayon = "=1.12.0"
scarb-metadata = "=1.15.1"
semver = "=1.0.28"
serde = { version = "=1.0.229", features = ["derive"] }
serde_json = "=1.0.154"
starknet = "=0.9.0"
tokio = { version = "=1.54.1", features = ["rt", "time"] }
