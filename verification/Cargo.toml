[package]
name = "pibq"
version = "0.1.0"
edition = "2021"
publish = false

[dependencies]
chrono = "*"
getopts = "*"
rusqlite = { version = "*", features = ["bundled"] }
serial = "0.4"
