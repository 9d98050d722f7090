[package]
name = "securekey"
version = "0.1.0"
edition = "2021"
publish = false

[dependencies]
base64 = "=0.22.1"
chrono = "=0.4.45"
clap = { version = "=4.6.7", features = ["derive"] }
colored = "=2.2.0"
getrandom = "=0.2.17"
hex = "=0.4.3"
rand = "=0.8.8"
serde = { version = "=1.0.229", features = ["derive"] }
serde_json = "=1.0.154"
sha2 = "=0.10.9"
signature = "=2.3.0-pre.4"
slh-dsa = "=0.1.0"
zeroize = { version = "=1.9.1", features = ["derive"] }
