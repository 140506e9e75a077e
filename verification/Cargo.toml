[package]
name = "babel_core"
version = "0.1.0"
edition = "2021"
publish = false

[dependencies]
directories = "*"
futures = "0.3"
reqwest = { version = "0.12", features = ["json"] }
rusqlite = "*"
scraper = "*"
serde = { version = "1", features = ["derive"] }
serde_json = "1"
tokio = { version = "1", features = ["full"] }
