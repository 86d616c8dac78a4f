[package]
name = "distant"
version = "0.1.0"
edition = "2021"
publish = false

[dependencies]
anyhow = "1"
clap = { version = "4", features = ["derive"] }
flexi_logger = "*"
log = "0.4"
serde = { version = "1", features = ["derive"] }
serde_json = "1"
tabled = "=0.22.0"
terminal_size = "*"
termwiz = "=0.23.3"
toml_edit = { version = "=0.25.15", features = ["serde"] }
