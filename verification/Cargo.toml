[package]
name = "ipatool"
version = "0.1.0"
edition = "2021"
publish = false

[dependencies]
regex = "=1.13.1"
time = { version = "=0.3.55", features = ["formatting", "parsing", "macros"] }
zip = { version = "=2.6.1", default-features = false, features = ["deflate"] }
plist = "=1.10.3"
mac_address = "=1.2.1"
owo-colors = "=4.4.0"
keyring = { version = "=3.6.3", features = ["async-secret-service", "tokio", "crypto-rust"] }
serde = { version = "=1.0.229", features = ["derive"] }
serde_json = "=1.0.154"
thiserror = "=2.0.21"
dirs = "=5.0.1"
log = "=0.4.35"
env_logger = "=0.11.11"
indicatif = "=0.17.11"
clap = { version = "=4.6.7", features = ["derive"] }
tokio = { version = "=1.54.1", features = ["rt-multi-thread", "macros", "fs", "io-util"] }
reqwest = { version = "=0.12.28", default-features = false, features = ["rustls-tls", "blocking", "json", "cookies"] }
cookie_store = "=0.22.1"
reqwest_cookie_store = "=0.9.0"
