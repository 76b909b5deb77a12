[package]
name = "hey_cli"
version = "0.1.0"
edition = "2021"
publish = false

[dependencies]
os_info = "3"
clap = { version = "4", features = ["derive"] }
serde = { version = "1", features = ["derive"] }
serde_json = "1"
reqwest = { version = "0.12", default-features = false, features = ["blocking", "json", "rustls-tls"] }
dirs = "5"
