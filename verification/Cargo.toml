[package]
name = "webhooks"
version = "0.1.0"
edition = "2021"
publish = false

[dependencies]
svix-ksuid = "=0.10.0"
url = "=2.5.8"
rand = "=0.8.8"
serde = { version = "=1.0.229", features = ["derive"] }
serde_json = "=1.0.151"
reqwest = { version = "=0.12.28", default-features = false, features = ["blocking", "json"] }
