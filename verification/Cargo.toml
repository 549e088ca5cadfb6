[package]
name = "emoji_picker"
version = "0.1.0"
edition = "2021"
publish = false

[dependencies]
arboard = "*"
clap = { version = "4", features = ["derive"] }
emoji = "*"
fork = "*"
