[package]
name = "mineral"
version = "0.1.0"
edition = "2021"
publish = false

[dependencies]
serde = { version = "=1.0.229", features = ["derive"] }
serde_json = "=1.0.151"
reqwest = { version = "=0.11.27", default-features = false, features = ["blocking", "json"] }
gatekeeper-members = "*"
libgatekeeper-sys = "*"
