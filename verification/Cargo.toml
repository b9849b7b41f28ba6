[package]
name = "lmdb_tui"
version = "0.1.0"
edition = "2021"
publish = false

[dependencies]
anyhow = "=1.0.104"
base64 = "=0.22.1"
clap = { version = "=4.6.7", features = ["derive"] }
crossterm = "=0.28.1"
csv = "=1.4.0"
env_logger = "=0.11.11"
fuzzy-matcher = "=0.3.7"
heed = "=0.21.0"
indicatif = "=0.17.11"
jsonpath_lib = "=0.3.0"
log = "=0.4.34"
notify = "=6.1.1"
once_cell = "=1.21.4"
ratatui = "=0.28.1"
regex = "=1.13.1"
rmp-serde = "=1.3.1"
serde = { version = "=1.0.229", features = ["derive"] }
serde_json = "=1.0.154"
thiserror = "=1.0.69"
tokio = { version = "=1.54.1", features = ["rt", "sync", "macros"] }
toml = "=0.8.23"
