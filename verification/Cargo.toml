[package]
name = "tasky"
version = "0.1.0"
edition = "2021"
publish = false

[dependencies]
rusqlite = "*"
chrono = "*"
unicode-width = "*"
clap = { version = "*", features = ["derive"] }
colored = "*"
prettytable-rs = "*"
terminal_size = "*"
dirs = "*"
