[package]
name = "mimi_content"
version = "0.1.0"
edition = "2021"
publish = false

[dependencies]
ciborium = "=0.2.2"
comrak = { version = "=0.57.0", default-features = false, features = ["syntect-fancy"] }
digest = "=0.10.7"
hmac = "=0.12.1"
indexmap = "=2.14.2"
rand_core = "=0.6.4"
serde = { version = "=1.0.229", features = ["derive"] }
sha2 = "=0.10.9"
thiserror = "=1.0.69"

[dev-dependencies]
rand = "=0.8.8"
sha3 = "=0.10.9"
