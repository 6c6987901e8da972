[package]
name = "tsukimi"
version = "0.1.0"
edition = "2021"
publish = false

[dependencies]
serde_json = "1"
oauth2 = { version = "5", default-features = false }
url = "2"
serde = { version = "1", features = ["derive"] }
reqwest = { version = "0.12", default-features = false, features = ["json", "rustls-tls"] }
tokio = { version = "1", features = ["full"] }
keyring = "3"
open = "5"
inquire = "0.7"
log = "0.4"
env_logger = "0.11"
time = { version = "0.3", features = ["serde"] }
clap = { version = "4", features = ["derive"] }
thiserror = "2"
directories-next = "2"
