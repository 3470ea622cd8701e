[package]
name = "conversion_cache"
version = "0.1.0"
edition = "2021"
publish = false

[dependencies]
lazy_static = "1"
reqwest = { version = "0.12", features = ["json"] }
serde = { version = "1", features = ["derive"] }
