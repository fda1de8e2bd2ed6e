[package]
name = "biusrv"
version = "0.1.0"
edition = "2021"
publish = false

[dependencies]
anyhow = "1"
base64 = "0.22"
clap = { version = "4", features = ["derive"] }
crossterm = "*"
env_logger = "0.11"
indicatif = "*"
log = "0.4"
rpassword = "7"
russh = "*"
russh-sftp = "*"
serde = { version = "1", features = ["derive"] }
serde_yaml = "0.9"
shell-words = "1"
tokio = { version = "1", features = ["full"] }
toml = "*"
