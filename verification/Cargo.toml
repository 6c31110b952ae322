[package]
name = "espresso_journal"
version = "0.1.0"
edition = "2021"
publish = false

[dependencies]
chrono = "0.4"
crossterm = "0.25"
dotenv = "0.15"
serde = { version = "1", features = ["derive"] }
serde_json = "1"
tui = "0.19"
ureq = { version = "2", features = ["json"] }
