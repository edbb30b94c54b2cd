[package]
name = "readmetoo"
version = "0.1.0"
edition = "2021"
publish = false

[dependencies]
pulldown-cmark = { version = "=0.9.6", default-features = false }
crossterm = "=0.27.0"
terminal_size = "=0.3.0"
config-get = "=0.1.7"
dirs = "=5.0.1"
minus = { version = "=5.8.0", features = ["static_output"] }
colored = "=2.2.0"
clap = { version = "=4.6.7", features = ["derive", "env"] }
anyhow = "=1.0.104"
thiserror = "=1.0.69"
serde = { version = "=1.0.229", features = ["derive"] }
toml = "=0.8.23"
