[package]
name = "pomodoro_rs"
version = "0.1.0"
edition = "2021"
publish = false

[dependencies]
chrono = "0.4"
clap = { version = "4", features = ["derive"] }
colored = "*"
ctrlc = "*"
dialoguer = "*"
dirs = "*"
notify-rust = { version = "4", default-features = false, features = ["z"] }
rand = "0.8"
rodio = "*"
