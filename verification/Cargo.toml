[package]
name = "analogue"
version = "0.1.0"
edition = "2021"
publish = false

[dependencies]
chrono = "0.4"
serde = { version = "1", features = ["derive"] }
serde_json = "1"
serde_repr = "0.1"
toml = "*"
reqwest = { version = "0.12", default-features = false, features = ["blocking"] }
