[package]
name = "olla"
version = "0.1.0"
edition = "2021"
publish = false

[dependencies]
anyhow = "1"
async-channel = "2"
bytes = "1"
clap = { version = "4", features = ["derive"] }
hex = "0.4"
nix = { version = "*", features = ["socket", "net"] }
pnet = "*"
rand = "0.9"
rustls = { version = "0.23", default-features = false, features = ["ring", "std", "logging", "tls12"] }
serde = { version = "1", features = ["derive"] }
serde_derive = "1"
socket2 = { version = "*", features = ["all"] }
tokio = { version = "1", features = ["full"] }
tokio-rustls = { version = "0.26", default-features = false, features = ["ring", "logging", "tls12"] }
toml = "*"
tracing = "0.1"
tracing-subscriber = "0.3"
tun-rs = { version = "2", features = ["async"] }
