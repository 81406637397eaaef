[package]
name = "megamind"
version = "0.1.0"
edition = "2021"
publish = false

[dependencies]
serde = { version = "1", features = ["derive"] }
serde_json = "=1.0.151"
log = "0.4"
thiserror = "*"
chrono = "0.4"
reqwest = { version = "=0.13.5", default-features = false, features = ["query"] }
