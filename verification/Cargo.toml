[package]
name = "lopen_memory"
version = "0.1.0"
edition = "2021"
publish = false

[dependencies]
rusqlite = { version = "*", features = ["bundled"] }
chrono = "*"
serde_json = "*"
clap = { version = "*", features = ["derive"] }
