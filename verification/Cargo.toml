[package]
name = "firebase_admin"
version = "0.1.0"
edition = "2021"
publish = false

[dependencies]
http = "=1.5.0"
serde = { version = "=1.0.229", features = ["derive"] }
serde_json = "=1.0.154"
error-stack = "=0.8.0"
async-trait = "=0.1.92"
gcp_auth = "=0.12.7"
