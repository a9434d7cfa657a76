[package]
name = "netdisk-core"
version = "0.1.0"
edition = "2021"
publish = false

[dependencies]
actix-files = { version = "0.6", default-features = false }
actix-web = { version = "4", default-features = false, features = ["macros"] }
chrono = { version = "0.4", features = ["serde"] }
dirs = "*"
env_logger = "*"
log = "0.4"
reqwest = { version = "0.12", default-features = false, features = ["json", "rustls-tls"] }
serde = { version = "1", features = ["derive"] }
serde_json = "1"
tokio = { version = "1", features = ["fs", "io-util"] }
toml = "*"
