[package]
name = "cruelty_style"
version = "0.1.0"
edition = "2021"
publish = false

[dependencies]
serde_json = "1"
image = "0.24"
inquire = "0.7"
dirs = "5"
