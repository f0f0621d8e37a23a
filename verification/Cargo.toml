[package]
name = "rustylock"
version = "0.1.0"
edition = "2021"
publish = false

[dependencies]
anyhow = "1"
arboard = { version = "3", default-features = false }
chacha20poly1305 = "0.10"
chrono = "0.4"
dirs = "5"
eyre = "0.6"
log = "0.4"
passwords = "3"
pbkdf2 = "0.12"
ratatui = "0.23"
ron = "0.8"
rusqlite = { version = "0.31", features = ["bundled", "chrono", "uuid"] }
serde = { version = "1", features = ["derive"] }
sha2 = "0.10"
tokio = { version = "1", features = ["sync", "time"] }
uuid = { version = "1", features = ["v4"] }
