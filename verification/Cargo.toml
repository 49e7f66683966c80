[package]
name = "emote_archiver"
version = "0.1.0"
edition = "2021"
publish = false

[dependencies]
zip = { version = "*", default-features = false }
log = "*"
env_logger = "*"
serde = { version = "*", features = ["derive"] }
serde_json = "*"
structopt = "*"
tokio = { version = "*", features = ["rt-multi-thread", "macros"] }
reqwest = { version = "*", default-features = false, features = ["json", "rustls-tls"] }
