[package]
name = "toolup"
version = "0.1.0"
edition = "2021"
publish = false

[dependencies]
sha2 = "0.10"
flate2 = "1"
url = "2"
serde = { version = "1", features = ["derive"] }
serde_json = "1"
clap = { version = "3.2", features = ["derive"] }
tar = "0.4"
fs2 = "0.4"
dirs = "4"
toml = "0.5"
walkdir = "2"
chrono = "0.4"
nix = { version = "0.26", features = ["process"] }
reqwest = { version = "0.11", default-features = false, features = ["blocking", "rustls-tls"] }
tokio = { version = "1", features = ["rt"] }
rusoto_core = { version = "0.48", default-features = false, features = ["rustls"] }
rusoto_credential = "0.48"
