[package]
name = "llamafile_kit"
version = "0.1.0"
edition = "2021"
publish = false

[dependencies]
anyhow = "*"
bollard = "*"
bytes = "*"
clap = { version = "*", features = ["derive", "env"] }
env_logger = "*"
flate2 = "*"
futures-util = "*"
indicatif = "*"
log = "*"
reqwest = { version = "*", default-features = false, features = ["json", "stream", "rustls-tls"] }
serde = { version = "*", features = ["derive"] }
tar = "*"
tempfile = "*"
tokio = { version = "*", features = ["full"] }
