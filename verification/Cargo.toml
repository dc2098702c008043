[package]
name = "classql"
version = "0.1.0"
edition = "2021"
publish = false

[dependencies]
regex = "1"
rusqlite = { version = "*", features = ["bundled"] }
dotenv = "0.15"
clap = { version = "4", features = ["derive"] }
ratatui = "*"
crossterm = "*"
reqwest = { version = "0.12", default-features = false, features = ["blocking", "json", "rustls-tls"] }
