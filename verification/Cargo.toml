[package]
name = "lsz"
version = "0.1.0"
edition = "2021"
publish = false

[dependencies]
anyhow = "1"
chrono = "0.4"
crossterm = "0.28"
lru = "0.12"
ratatui = "0.29"
rusqlite = { version = "0.32", features = ["bundled"] }
syntect = { version = "5", default-features = false, features = ["default-fancy"] }
unicode-width = "0.2"
