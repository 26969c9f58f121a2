[package]
name = "escli"
version = "0.1.0"
edition = "2021"
publish = false

[dependencies]
anyhow = "1"
clap = { version = "=4.6.7", features = ["derive"] }
colored = "=2.2.0"
crossterm = "=0.27.0"
dirs = "=5.0.1"
elasticsearch = { version = "=8.19.0-alpha.1", default-features = false, features = ["rustls-tls", "experimental-apis"] }
futures = "0.3"
indicatif = "=0.17.11"
log = "0.4"
pretty_env_logger = "=0.5.0"
ratatui = "=0.23.0"
serde = { version = "1", features = ["derive"] }
serde_json = "1"
serde_yaml = "=0.9.34"
tabled = "=0.14.0"
tokio = { version = "=1.53.2", features = ["macros", "rt-multi-thread", "time"] }
