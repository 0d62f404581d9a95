[package]
name = "rfind"
version = "0.1.0"
edition = "2021"

[dependencies]
clap = { version = "4", features = ["cargo"] }
regex = "1"
walkdir = "2"
