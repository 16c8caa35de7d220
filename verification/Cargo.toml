[package]
name = "nes_core"
version = "0.1.0"
edition = "2021"
publish = false

[dependencies]
anyhow = "1"
log = "0.4"
piston_window = "*"
pretty_env_logger = "0.4"
thiserror = "1"
tui = { version = "0.19", default-features = false }
