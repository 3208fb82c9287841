[package]
name = "auth_gateway"
version = "0.1.0"
edition = "2021"
publish = false

[dependencies]
base64 = "=0.23.1"
sha2 = "=0.11.0"
rand = "=0.10.3"
jsonwebtoken = { version = "=11.1.0", features = ["rust_crypto"] }
serde = { version = "=1.0.229", features = ["derive"] }
serde_json = "=1.0.151"
reqwest = { version = "=0.13.5", default-features = false, features = ["blocking", "json"] }

[dev-dependencies]
rsa = "=0.9.10"
