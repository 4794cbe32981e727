[package]
name = "rbxsync"
version = "0.1.0"
edition = "2021"
publish = false

[dependencies]
anyhow = "*"
clap = { version = "*", features = ["derive"] }
dotenvy = "*"
env_logger = "*"
log = "*"
reqwest = { version = "*", default-features = false, features = ["json", "multipart", "rustls-tls"] }
serde = { version = "*", features = ["derive"] }
serde_json = "*"
serde_yaml = "*"
sha2 = "*"
tokio = { version = "*", features = ["macros", "rt-multi-thread", "fs", "time"] }
