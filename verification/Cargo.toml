[package]
name = "flashquiz"
version = "0.1.0"
edition = "2021"
publish = false

[dependencies]
clap = "2"
ncurses = "5"
rand = "0.8"
serde = { version = "1", features = ["derive"] }
serde_json = "1"
