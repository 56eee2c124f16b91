[package]
name = "signal_export"
version = "0.1.0"
edition = "2021"
publish = false

[dependencies]
serde_json = "*"
mime_guess = "*"
rusqlite = { version = "*", features = ["bundled"] }
clap = { version = "*", features = ["derive"] }
