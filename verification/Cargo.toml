[package]
name = "sso"
version = "0.1.0"
edition = "2021"
publish = false

[dependencies]
chrono = { version = "0.4", default-features = false, features = ["clock", "std"] }
data-encoding = "2"
derive_more = { version = "2", features = ["as_ref", "deref", "display", "from", "into"] }
jsonwebtoken = { version = "10", features = ["use_pem", "rust_crypto"] }
openidconnect = { version = "4", default-features = false }
openssl = "0.10"
serde = { version = "1", features = ["derive"] }
url = "2"

[dev-dependencies]
regex = "1"
