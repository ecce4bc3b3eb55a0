[package]
name = "jview"
version = "0.1.0"
edition = "2021"
publish = false

[dependencies]
chrono = { version = "0.4", default-features = false, features = ["clock"] }
crossterm = "0.28"
log = "0.4"
once_cell = "1"
ratatui = "0.29"
