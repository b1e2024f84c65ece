[package]
name = "scli"
version = "0.1.0"
edition = "2021"
publish = false

[dependencies]
minimp3 = "0.5"
serde = { version = "1", features = ["derive"] }
reqwest = { version = "0.11", default-features = false, features = ["blocking", "json", "rustls-tls"] }
rodio = "0.17"
termion = "2"
tui = { version = "0.19", default-features = false, features = ["termion"] }
failure = "0.1"
