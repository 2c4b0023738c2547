[package]
name = "helix_rs"
version = "0.1.0"
edition = "2021"

[dependencies]
reqwest = { version = "*", default-features = false }
serde = { version = "*", features = ["derive"] }
serde_json = "*"
thiserror = "*"
