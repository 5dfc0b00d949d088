[package]
name = "muslink"
version = "0.1.0"
edition = "2021"
publish = false

[dependencies]
reqwest = { version = "*", default-features = false, features = ["blocking", "json"] }
rust_iso3166 = "*"
serde = { version = "*", features = ["derive"] }
serde_json = "*"
chrono = "*"
