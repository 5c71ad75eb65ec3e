[package]
name = "kuren"
version = "0.1.0"
edition = "2021"
publish = false

[dependencies]
dirs = "=5.0.1"
ed25519-dalek = { version = "=2.2.0", features = ["rand_core"] }
rand = "=0.8.8"
hex = "=0.4.3"
anyhow = "=1.0.104"
clap = { version = "=4.6.7", features = ["derive"] }
serde = { version = "=1.0.229", features = ["derive"] }
toml = "=0.8.23"
tonic = { version = "=0.12.3", features = ["tls", "tls-webpki-roots"] }
self_update = { version = "=1.3.3", default-features = false, features = ["ureq", "rustls", "github", "archive-tar", "compression-tar-gz"] }
