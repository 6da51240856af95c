[package]
name = "cargo_sonic"
version = "0.1.0"
edition = "2021"
publish = false

[dependencies]
anyhow = "=1.0.104"
camino = "=1.2.6"
cargo_metadata = "=0.23.1"
clap = { version = "=4.6.7", features = ["derive"] }
clap_complete = "=4.6.11"
miniz_oxide = "0.8"
object = { version = "0.37", features = ["write"] }
serde = { version = "=1.0.229", features = ["derive"] }
serde_json = "=1.0.154"
toml = "0.9"
zstd = "0.13"
