[package]
name = "fulltime-plugin-api"
version = "0.1.0"
edition = "2021"
publish = false

[dependencies]
toml = "*"
serde = { version = "1", features = ["derive"] }
thiserror = "*"
