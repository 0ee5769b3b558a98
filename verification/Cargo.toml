[package]
name = "github-update"
version = "0.1.0"
edition = "2021"
publish = false

[dependencies]
regex = "1"
chrono = { version = "0.4", features = ["serde"] }
clap = { version = "4", features = ["derive"] }
color-eyre = "0.6"
dirs = "*"
http = "1"
indicatif = "0.17"
nucleo-picker = "*"
once_cell = "1"
serde = { version = "1", features = ["derive"] }
thiserror = "*"
toml = "0.8"
ureq = { version = "3", features = ["json"] }
