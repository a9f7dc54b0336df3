[package]
name = "rustic_yellow"
version = "0.1.0"
edition = "2021"
publish = false

[dependencies]
icy_sixel = "0.1"
termwiz = "0.22"
ratatui = "0.26"
uuid = { version = "1", features = ["v4"] }
crossterm = "0.27"
image = { version = "0.24", default-features = false }
clap = { version = "4", features = ["derive"] }
tokio = { version = "1", features = ["full"] }
russh = "0.43"
russh-keys = "0.43"
ed25519-dalek = "2"
async-trait = "0.1"
futures = "0.3"
async-once-cell = "0.5"
anyhow = "1"
log = "0.4"
env_logger = { version = "0.11", default-features = false }
human-panic = "1"
better-panic = "0.3"
