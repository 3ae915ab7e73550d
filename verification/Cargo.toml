[package]
name = "scry"
version = "0.1.0"
edition = "2021"
publish = false

[dependencies]
anyhow = "1"
clap = { version = "4", features = ["derive", "env"] }
colored = "2"
dialoguer = "0.11"
dirs = "5"
futures = "0.3"
reqwest = { version = "0.12", default-features = false, features = ["json", "rustls-tls"] }
serde = { version = "1", features = ["derive"] }
surge-ping = "0.8"
tokio = { version = "1", features = ["full"] }
toml = "0.8"
