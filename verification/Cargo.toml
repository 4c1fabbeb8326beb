[package]
name = "venv_cleaner"
version = "0.1.0"
edition = "2021"
publish = false

[dependencies]
chrono = "0.4"
clap = "4"
colored = "2"
crossterm = "0.27"
env_logger = "0.11"
indicatif = "0.17"
log = "0.4"
ratatui = "0.26"
thiserror = "1"
walkdir = "2"
