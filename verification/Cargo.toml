[package]
name = "feedmee"
version = "0.1.0"
edition = "2021"
publish = false

[dependencies]
feed-rs = "=2.4.0"
scraper = "=0.18.1"
url = "=2.5.8"
readability-rust = "=0.1.0"
opml = "=1.1.6"
reqwest = "=0.12.28"
rusqlite = { version = "=0.40.2", features = ["bundled"] }
rusqlite_migration = "=2.6.0"
serde = { version = "=1.0.229", features = ["derive"] }
toml = "=1.1.8"
log = "=0.4.34"
simplelog = "=0.12.2"
