[package]
name = "deployment_copy"
version = "0.1.0"
edition = "2021"
publish = false

[dependencies]
clap = { version = "4", features = ["derive"] }
crossterm = "*"
fs_extra = "1"
strip-ansi-escapes = "0.1"
