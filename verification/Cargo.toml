[package]
name = "manga_extensions"
version = "0.1.0"
edition = "2021"
publish = false

[dependencies]
anyhow = "=1.0.104"
chrono = "=0.4.45"
fancy-regex = "=0.19.2"
scraper = "=0.29.0"
serde = { version = "=1.0.229", features = ["derive"] }
serde_json = "=1.0.154"
tanoshi-lib = "=0.27.0"
ureq = "2"
