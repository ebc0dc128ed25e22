[package]
name = "calendar_scraper"
version = "0.1.0"
edition = "2021"
publish = false

[dependencies]
anyhow = "*"
chrono = "*"
clap = { version = "*", features = ["derive"] }
config = "*"
csv = "*"
dashmap = "*"
diesel = { version = "*", features = ["mysql", "chrono", "r2d2"] }
http = "*"
reqwest = { version = "*", default-features = false }
scraper = "*"
serde = { version = "*", features = ["derive"] }
serde_json = "*"
tokio = { version = "*", features = ["macros", "rt-multi-thread", "sync", "time"] }
url = "*"
