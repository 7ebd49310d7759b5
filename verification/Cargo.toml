[package]
name = "synco"
version = "0.3.0"
edition = "2021"
publish = false

[dependencies]
async-channel = "1"
async-process = "1"
async-signals = "*"
base64 = "0.13"
defer = "*"
env_logger = "*"
futures-lite = "1"
futures-micro = "*"
libc = "0.2"
libp2p = { version = "0.39", default-features = false, features = ["gossipsub", "mdns", "noise", "ping", "tcp-async-io", "yamux"] }
log = "0.4"
quick-error = "2"
serde = { version = "1", features = ["derive"] }
serde_json = "1"
serde_tuple = "*"
serde_yaml = "0.8"
shellexpand = "2"
smol = "1"
