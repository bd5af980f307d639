[package]
name = "genesis_kit"
version = "0.1.0"
edition = "2021"
publish = false

[dependencies]
anyhow = "1"
clap = "4"
console = "*"
dialoguer = "*"
dirs = "*"
env_logger = "*"
indicatif = "*"
log = "0.4"
open = "*"
semver = "1"
serde = { version = "1", features = ["derive"] }
serde_json = "1"
serde_yaml = "0.9"
tabled = "*"
tokio = { version = "1", features = ["macros", "rt-multi-thread", "process"] }
walkdir = "2"
