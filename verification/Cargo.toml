[package]
name = "rusty_journal"
version = "0.1.0"
edition = "2021"
publish = false

[dependencies]
anyhow = "1"
chrono = { version = "0.4", features = ["serde"] }
home = "0.5"
serde = { version = "1", features = ["derive"] }
serde_json = "1"
structopt = "0.3"
