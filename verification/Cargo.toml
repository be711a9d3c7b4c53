[package]
name = "poe_api"
version = "0.1.0"
edition = "2021"
publish = false

[dependencies]
tiny_http = "0.12"
url = "2"
oauth2 = "4"
serde = { version = "1", features = ["derive"] }
serde_json = "1"
reqwest = { version = "0.11", features = ["json"] }
