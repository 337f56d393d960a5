[package]
name = "dprs"
version = "0.1.0"
edition = "2021"
publish = false

[dependencies]
regex = "*"
ratatui = "*"
crossterm = "*"
serde = { version = "*", features = ["derive"] }
toml = "*"
dirs = "*"
chrono = "*"
copypasta-ext = "*"
ansi-to-tui = "*"
tailspin = "*"
