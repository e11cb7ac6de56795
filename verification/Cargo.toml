[package]
name = "rs_proxmox"
version = "0.1.0"
edition = "2021"
publish = false

[dependencies]
reqwest = { version = "=0.11.27", features = ["json", "cookies", "native-tls"] }
serde = { version = "=1.0.229", features = ["derive"] }
