[package]
name = "countdown_tui"
version = "0.1.0"
edition = "2021"
publish = false

[dependencies]
chrono = "*"
clap = { version = "*", features = ["derive"] }
crossterm = "*"
tokio = { version = "*", features = ["macros", "rt-multi-thread", "sync", "time"] }
