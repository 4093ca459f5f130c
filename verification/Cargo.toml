[package]
name = "account"
version = "0.1.0"
edition = "2021"
publish = false

[dependencies]
dashmap = "=5.5.3"
opaque-ke = "=3.0.0"
rand = "=0.8.8"
base64 = "=0.22.1"
jsonwebtoken = "=9.3.1"
totp-rs = { version = "=5.7.2", features = ["otpauth", "qr"] }
ulid = "=1.2.1"
regex = "=1.13.1"
webauthn-rs = { version = "=0.5.5", features = ["conditional-ui", "danger-allow-state-serialisation"] }
aes-gcm = "=0.10.3"
serde = { version = "=1.0.229", features = ["derive"] }
serde_json = "=1.0.154"
actix-web = { version = "=4.18.1", default-features = false, features = ["macros"] }
actix-extensible-rate-limit = "=0.4.0"
mongodb = { version = "=3.9.1", default-features = false, features = ["compat-3-0-0", "rustls-tls"] }
reqwest = { version = "=0.12.28", default-features = false, features = ["rustls-tls"] }
lettre = { version = "=0.11.23", default-features = false, features = ["builder", "smtp-transport", "async-std1", "async-std1-rustls-tls"] }
async-std = { version = "=1.13.2", features = ["attributes"] }
futures-util = "=0.3.34"
lazy_static = "=1.5.1"
once_cell = "=1.21.4"
log = "=0.4.34"
