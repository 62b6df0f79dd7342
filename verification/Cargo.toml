[package]
name = "keetanetwork-anchor-client"
version = "0.1.0"
edition = "2021"
publish = false

[dependencies]
base64 = "=0.22.1"
keetanetwork-account = { version = "=0.4.0", default-features = false, features = ["alloc", "rasn"] }
keetanetwork-bindings = { version = "=0.4.5", default-features = false }
keetanetwork-client = { version = "=0.5.2", default-features = false }
keetanetwork-client-wasi = { version = "=0.6.2", features = ["p1"] }
reqwest = { version = "0.13", default-features = false }
serde = { version = "=1.0.229", features = ["derive"] }
serde_json = "=1.0.154"
url = "=2.5.8"
